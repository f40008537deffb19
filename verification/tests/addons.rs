use hemtt::addons::Addon;
use hemtt::addons::AddonConfig;
use hemtt::addons::BuildData;
use hemtt::addons::Location;
use hemtt::addons::Prefix;
use hemtt::addons::Version;
use hemtt::addons::WorkspacePath;

fn addon(name: &str, location: Location) -> Addon {
    Addon::new(
        name.to_string(),
        location,
        None,
        Prefix::new(format!("z\\test\\addons\\{name}")),
    )
}

#[test]
pub fn location_from_str() {
    assert_eq!("addons".parse(), Ok(Location::Addons));
    assert_eq!("optionals".parse(), Ok(Location::Optionals));
    assert_eq!(
        "foobar".parse::<Location>(),
        Err(hemtt::addons::Error::AddonLocationInvalid("foobar".to_string()))
    );
}

#[test]
fn location_names_round_trip() {
    assert_eq!(Location::Addons.to_string(), "addons");
    assert_eq!(Location::Optionals.to_string(), "optionals");
    assert_eq!(Location::Addons.to_string().parse(), Ok(Location::Addons));
    assert_eq!(Location::Optionals.to_string().parse(), Ok(Location::Optionals));
}

#[test]
fn addon_getters_report_what_was_given() {
    let a = Addon::new(
        "main".to_string(),
        Location::Addons,
        Some(AddonConfig {}),
        Prefix::new("z\\test\\addons\\main".to_string()),
    );
    assert_eq!(a.name(), "main");
    assert_eq!(*a.location(), Location::Addons);
    assert_eq!(a.prefix().value(), "z\\test\\addons\\main");
    assert_eq!(a.config(), Some(&AddonConfig {}));
    assert_eq!(a.folder(), "addons/main");
    assert_eq!(a.pbo_name("abe"), "abe_main");
    assert!(a.build_data().required_version.is_none());
}

#[test]
fn optional_addon_folder_uses_its_location() {
    let a = addon("compat", Location::Optionals);
    assert_eq!(a.folder(), "optionals/compat");
}

#[test]
fn scan_accepts_distinct_names() {
    let addons = vec![
        addon("main", Location::Addons),
        addon("common", Location::Addons),
        addon("compat", Location::Optionals),
    ];
    let scanned = Addon::scan(addons).expect("no collision");
    assert_eq!(scanned.len(), 3);
    assert_eq!(scanned[0].name(), "main");
}

#[test]
fn scan_rejects_names_differing_only_in_case() {
    let addons = vec![addon("Main", Location::Addons), addon("main", Location::Addons)];
    let err = Addon::scan(addons).expect_err("a casing collision");
    assert_eq!(err, hemtt::addons::Error::AddonNameDuplicate("Main".to_string()));
}

#[test]
fn scan_rejects_one_addon_in_both_locations() {
    let addons = vec![addon("main", Location::Addons), addon("main", Location::Optionals)];
    let err = Addon::scan(addons).expect_err("a location collision");
    assert_eq!(err, hemtt::addons::Error::AddonDuplicate("main".to_string()));
}

#[test]
fn build_data_records_the_required_version() {
    let mut data = BuildData::new();
    assert!(data.required_version().is_none());
    data.set_required_version(
        Version::new(1, 12, 0),
        WorkspacePath::new("addons/main/config.cpp".to_string()),
        4,
        5,
    );
    let recorded = data.required_version().expect("recorded");
    assert_eq!(recorded.version, Version::new(1, 12, 0));
    assert_eq!(recorded.file.path.as_str(), "addons/main/config.cpp");
    assert_eq!(recorded.start, 4);
    assert_eq!(recorded.end, 5);
}
