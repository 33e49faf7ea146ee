use quma::quadlet::QuadletType;
use quma::quadlets::classify_quadlet_file;
use quma::quadlets::validate_save_request;
use quma::quadlets::SaveError;
use quma::quadlets::SaveQuadletRequest;

#[test]
fn test_quadlet_type_from_filename() {
    assert_eq!(
        QuadletType::from_extension(".container"),
        Some(QuadletType::Container)
    );
    assert_eq!(
        QuadletType::from_extension(".network"),
        Some(QuadletType::Network)
    );
    assert_eq!(
        QuadletType::from_extension(".volume"),
        Some(QuadletType::Volume)
    );
    assert_eq!(QuadletType::from_extension(".kube"), Some(QuadletType::Kube));
    assert_eq!(QuadletType::from_extension(".pod"), Some(QuadletType::Pod));
    assert_eq!(
        QuadletType::from_extension(".image"),
        Some(QuadletType::Image)
    );
}

#[test]
fn test_save_request_validation() {
    let request = SaveQuadletRequest {
        name: "test.container".to_string(),
        content: "[Container]\nImage=alpine\n".to_string(),
    };

    assert!(!request.name.is_empty());
    assert!(!request.content.is_empty());
}

#[test]
fn test_save_request_empty_name() {
    let request = SaveQuadletRequest {
        name: "".to_string(),
        content: "[Container]\nImage=alpine\n".to_string(),
    };

    assert!(request.name.is_empty());
}

#[test]
fn test_save_request_with_all_quadlet_types() {
    let types = vec![
        "test.container",
        "test.network",
        "test.volume",
        "test.kube",
        "test.pod",
        "test.image",
    ];

    for filename in types {
        let request = SaveQuadletRequest {
            name: filename.to_string(),
            content: format!("[{}]\n", filename.split('.').nth(1).unwrap()),
        };

        let validated = validate_save_request(&request);
        assert!(validated.is_ok());
        let (stem, _) = validated.unwrap();
        assert_eq!(stem, "test");
    }
}

#[test]
fn test_save_request_rejects_empty_name() {
    let request = SaveQuadletRequest {
        name: "".to_string(),
        content: "[Container]\n".to_string(),
    };
    match validate_save_request(&request) {
        Err(e @ SaveError::EmptyName) => {
            assert_eq!(e.message(), "Name cannot be empty");
        }
        other => panic!("expected an empty-name rejection, got {:?}", other),
    }
}

#[test]
fn test_save_request_rejects_missing_extension() {
    let request = SaveQuadletRequest {
        name: "testfile".to_string(),
        content: "[Container]\n".to_string(),
    };
    match validate_save_request(&request) {
        Err(e @ SaveError::MissingExtension) => {
            assert_eq!(e.message(), "Invalid file name: missing extension");
        }
        other => panic!("expected a missing-extension rejection, got {:?}", other),
    }
}

#[test]
fn test_save_request_rejects_unknown_extension() {
    let request = SaveQuadletRequest {
        name: "test.txt".to_string(),
        content: "some content".to_string(),
    };
    match validate_save_request(&request) {
        Err(e) => {
            match &e {
                SaveError::UnknownExtension(ext) => assert_eq!(ext, ".txt"),
                other => panic!("expected an unknown-extension rejection, got {:?}", other),
            }
            assert_eq!(e.message(), "Invalid quadlet extension: .txt");
        }
        Ok(ok) => panic!("expected a rejection, got {:?}", ok),
    }
}

#[test]
fn test_save_request_hidden_file_has_no_extension() {
    let request = SaveQuadletRequest {
        name: ".container".to_string(),
        content: "[Container]\n".to_string(),
    };
    assert!(matches!(
        validate_save_request(&request),
        Err(SaveError::MissingExtension)
    ));
}

#[test]
fn test_save_request_accepts_valid_container() {
    let request = SaveQuadletRequest {
        name: "my-app.container".to_string(),
        content: "[Container]\nImage=alpine\n".to_string(),
    };
    let (stem, kind) = validate_save_request(&request).unwrap();
    assert_eq!(stem, "my-app");
    assert_eq!(kind, QuadletType::Container);
}

#[test]
fn test_classify_recognized_file() {
    let quadlet = classify_quadlet_file(
        "/home/user/.config/containers/systemd/web.network".to_string(),
        "[Network]\n".to_string(),
    )
    .unwrap();
    assert_eq!(quadlet.name, "web");
    assert_eq!(quadlet.kind, QuadletType::Network);
    assert_eq!(quadlet.content, "[Network]\n");
    assert_eq!(
        quadlet.path,
        "/home/user/.config/containers/systemd/web.network"
    );
}

#[test]
fn test_classify_ignores_other_files() {
    assert!(classify_quadlet_file("/tmp/readme".to_string(), "text".to_string()).is_none());
    assert!(classify_quadlet_file("/tmp/notes.txt".to_string(), "text".to_string()).is_none());
}
