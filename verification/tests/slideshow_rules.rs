use std::path::PathBuf;

use gnomex::wallpaper_slideshow::{
    check_interval_slideshow, check_time_of_day_slideshow, slideshow_xml_relative_path, validate_slideshow_name,
    FixedClock, SlideshowClock, StartTime, TimeOfDay, WallpaperSlideshowError, MIN_INTERVAL_SECONDS,
};

fn paths(v: &[&str]) -> Vec<PathBuf> {
    v.iter().map(PathBuf::from).collect()
}

#[test]
fn requires_at_least_two_pictures() {
    let err = check_interval_slideshow("solo", &paths(&["/x/y.jpg"]), 30).unwrap_err();
    assert_eq!(err, WallpaperSlideshowError::TooFewPictures);
}

#[test]
fn rejects_sub_minimum_interval() {
    let err = check_interval_slideshow("fast", &paths(&["/a.jpg", "/b.jpg"]), 1).unwrap_err();
    assert_eq!(err, WallpaperSlideshowError::IntervalTooShort);
}

#[test]
fn rejects_relative_picture_paths() {
    let err = check_interval_slideshow("relly", &paths(&["relative.jpg", "/absolute.jpg"]), 30).unwrap_err();
    assert!(matches!(err, WallpaperSlideshowError::RelativePath(_)));
}

#[test]
fn rejects_unsafe_names() {
    for bad in ["", ".hidden", "has/slash", "has\\bslash", "tab\there"] {
        let err = check_interval_slideshow(bad, &paths(&["/a.jpg", "/b.jpg"]), 30).unwrap_err();
        assert!(
            matches!(err, WallpaperSlideshowError::InvalidName(_)),
            "expected InvalidName for {bad:?}, got {err:?}"
        );
    }
}

#[test]
fn sanity_slideshow_invariants_surface_from_domain() {
    let err = check_interval_slideshow("x", &[], 60).unwrap_err();
    assert_eq!(err, WallpaperSlideshowError::TooFewPictures);
}

#[test]
fn interval_checks_run_in_order() {
    assert!(check_interval_slideshow("nightfall", &paths(&["/a.jpg", "/b.jpg", "/c.jpg"]), 600).is_ok());
    assert!(check_interval_slideshow("edge", &paths(&["/a.jpg", "/b.jpg"]), MIN_INTERVAL_SECONDS).is_ok());
    assert_eq!(
        check_interval_slideshow(".bad", &paths(&["/a.jpg"]), 1).unwrap_err(),
        WallpaperSlideshowError::InvalidName(".bad".into())
    );
    assert_eq!(
        check_interval_slideshow("ok", &paths(&["/a.jpg", "rel/b.jpg", "c.jpg"]), 30).unwrap_err(),
        WallpaperSlideshowError::RelativePath(PathBuf::from("rel/b.jpg"))
    );
    assert!(validate_slideshow_name("caf\u{e9} night").is_ok());
    assert!(validate_slideshow_name("bell\u{7}").is_err());
    assert!(validate_slideshow_name("nul\u{0}").is_err());
}

fn slot_pics(v: [&str; 4]) -> [PathBuf; 4] {
    [PathBuf::from(v[0]), PathBuf::from(v[1]), PathBuf::from(v[2]), PathBuf::from(v[3])]
}

#[test]
fn time_of_day_constructor_builds_four_slots() {
    let pics = slot_pics(["/img/sunrise.jpg", "/img/day.jpg", "/img/sunset.jpg", "/img/night.jpg"]);
    let slots = [TimeOfDay::new(6, 0), TimeOfDay::new(9, 0), TimeOfDay::new(18, 0), TimeOfDay::new(21, 0)];
    assert!(check_time_of_day_slideshow("daily", &pics, &slots).is_ok());
}

#[test]
fn time_of_day_requires_increasing_transitions() {
    let pics = slot_pics(["/a.jpg", "/b.jpg", "/c.jpg", "/d.jpg"]);
    let slots = [TimeOfDay::new(9, 0), TimeOfDay::new(6, 0), TimeOfDay::new(18, 0), TimeOfDay::new(21, 0)];
    let err = check_time_of_day_slideshow("bad", &pics, &slots).unwrap_err();
    assert_eq!(err, WallpaperSlideshowError::TimesNotIncreasing);
}

#[test]
fn time_of_day_rejects_relative_paths() {
    let pics = slot_pics(["relative.jpg", "/d.jpg", "/s.jpg", "/n.jpg"]);
    let slots = [TimeOfDay::new(6, 0), TimeOfDay::new(9, 0), TimeOfDay::new(18, 0), TimeOfDay::new(21, 0)];
    let err = check_time_of_day_slideshow("rel", &pics, &slots).unwrap_err();
    assert!(matches!(err, WallpaperSlideshowError::RelativePath(_)));
}

#[test]
fn time_of_day_equal_transitions_are_refused() {
    let pics = slot_pics(["/a.jpg", "/b.jpg", "/c.jpg", "/d.jpg"]);
    let slots = [TimeOfDay::new(6, 0), TimeOfDay::new(9, 0), TimeOfDay::new(9, 0), TimeOfDay::new(21, 0)];
    assert_eq!(
        check_time_of_day_slideshow("eq", &pics, &slots).unwrap_err(),
        WallpaperSlideshowError::TimesNotIncreasing
    );
    assert_eq!(
        check_time_of_day_slideshow("a/b", &pics, &slots).unwrap_err(),
        WallpaperSlideshowError::InvalidName("a/b".into())
    );
}

#[test]
fn fixed_clock_is_deterministic() {
    let c = FixedClock(StartTime::epoch());
    assert_eq!(c.now(), StartTime::epoch());
    assert_eq!(c.now(), c.now());
}

#[test]
fn epoch_is_the_stock_start_time() {
    let e = StartTime::epoch();
    assert_eq!((e.year, e.month, e.day, e.hour, e.minute, e.second), (2011, 11, 11, 11, 11, 11));
}

#[test]
fn time_of_day_seconds_since_midnight_math() {
    assert_eq!(TimeOfDay::new(0, 0).seconds_since_midnight(), 0);
    assert_eq!(TimeOfDay::new(6, 30).seconds_since_midnight(), 6 * 3600 + 1800);
    assert_eq!(TimeOfDay::new(23, 59).seconds_since_midnight(), 86_340);
}

#[test]
fn time_of_day_out_of_range_clamps() {
    assert_eq!(TimeOfDay::new(25, 70).hour, 23);
    assert_eq!(TimeOfDay::new(25, 70).minute, 59);
}

#[test]
fn xml_path_helper_is_under_background_properties() {
    let p = slideshow_xml_relative_path("xy");
    assert_eq!(p, PathBuf::from("gnome-background-properties/xy.xml"));
}

#[test]
fn slideshow_error_messages() {
    assert_eq!(WallpaperSlideshowError::TooFewPictures.to_string(), "slideshow needs at least two pictures");
    assert_eq!(WallpaperSlideshowError::IntervalTooShort.to_string(), "interval must be at least 5 seconds");
    assert_eq!(
        WallpaperSlideshowError::RelativePath(PathBuf::from("a b.jpg")).to_string(),
        "picture path must be absolute: a b.jpg"
    );
    assert_eq!(
        WallpaperSlideshowError::InvalidName("tab\there".into()).to_string(),
        "invalid slideshow name: \"tab\\there\""
    );
    assert_eq!(
        WallpaperSlideshowError::TimesNotIncreasing.to_string(),
        "sunrise/day/sunset/night times must be strictly increasing"
    );
}
