use quma::quadlet::Quadlet;
use quma::quadlet::QuadletType;

#[test]
fn test_quadlet_type_extension() {
    assert_eq!(QuadletType::Container.extension(), ".container");
    assert_eq!(QuadletType::Network.extension(), ".network");
    assert_eq!(QuadletType::Volume.extension(), ".volume");
    assert_eq!(QuadletType::Kube.extension(), ".kube");
    assert_eq!(QuadletType::Pod.extension(), ".pod");
    assert_eq!(QuadletType::Image.extension(), ".image");
}

#[test]
fn test_quadlet_type_from_extension() {
    assert_eq!(
        QuadletType::from_extension(".container"),
        Some(QuadletType::Container)
    );
    assert_eq!(
        QuadletType::from_extension(".network"),
        Some(QuadletType::Network)
    );
    assert_eq!(
        QuadletType::from_extension(".volume"),
        Some(QuadletType::Volume)
    );
    assert_eq!(QuadletType::from_extension(".kube"), Some(QuadletType::Kube));
    assert_eq!(QuadletType::from_extension(".pod"), Some(QuadletType::Pod));
    assert_eq!(
        QuadletType::from_extension(".image"),
        Some(QuadletType::Image)
    );
    assert_eq!(QuadletType::from_extension(".txt"), None);
}

#[test]
fn test_quadlet_type_as_str() {
    assert_eq!(QuadletType::Container.as_str(), "container");
    assert_eq!(QuadletType::Network.as_str(), "network");
    assert_eq!(QuadletType::Volume.as_str(), "volume");
    assert_eq!(QuadletType::Kube.as_str(), "kube");
    assert_eq!(QuadletType::Pod.as_str(), "pod");
    assert_eq!(QuadletType::Image.as_str(), "image");
}

#[test]
fn test_quadlet_creation() {
    let quadlet = Quadlet::new(
        "my-app".to_string(),
        QuadletType::Container,
        "[Container]\nImage=alpine\n".to_string(),
        "/home/user/.config/containers/systemd/my-app.container".to_string(),
    );

    assert_eq!(quadlet.name, "my-app");
    assert_eq!(quadlet.kind, QuadletType::Container);
    assert_eq!(quadlet.full_name(), "my-app.container");
}

#[test]
fn test_extension_round_trip_all_kinds() {
    let kinds = vec![
        QuadletType::Container,
        QuadletType::Network,
        QuadletType::Volume,
        QuadletType::Kube,
        QuadletType::Pod,
        QuadletType::Image,
    ];
    for kind in kinds {
        assert_eq!(QuadletType::from_extension(kind.extension()), Some(kind));
    }
}

#[test]
fn test_full_name_matches_kind_extension() {
    let quadlet = Quadlet::new(
        "db".to_string(),
        QuadletType::Volume,
        "[Volume]\n".to_string(),
        "/tmp/db.volume".to_string(),
    );
    assert_eq!(quadlet.full_name(), "db.volume");
}
