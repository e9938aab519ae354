use infernal_taskmaster_simple::error::TaskmasterError;
use infernal_taskmaster_simple::identity::{new_request_id, parse_service_id};

#[test]
fn every_spelling_of_a_uuid_names_the_same_service() {
    for text in [
        "936da01f-9abd-4d9d-80c7-02af85c822a8",
        "936DA01F-9ABD-4D9D-80C7-02AF85C822A8",
        "936da01f9abd4d9d80c702af85c822a8",
        "{936da01f-9abd-4d9d-80c7-02af85c822a8}",
        "urn:uuid:936da01f-9abd-4d9d-80c7-02af85c822a8",
        "URN:uuid:936da01f-9abd-4d9d-80c7-02af85c822a8",
    ] {
        assert_eq!(
            parse_service_id(text),
            Ok(0x936da01f_9abd_4d9d_80c7_02af85c822a8)
        );
    }
    assert_eq!(
        parse_service_id("00000000-0000-0000-0000-000000000000"),
        Ok(0)
    );
    assert_eq!(
        parse_service_id("ffffffff-ffff-ffff-ffff-ffffffffffff"),
        Ok(u128::MAX)
    );
}

#[test]
fn nothing_else_names_a_service() {
    for text in [
        "",
        "taskmaster",
        " 936da01f-9abd-4d9d-80c7-02af85c822a8",
        "936da01f-9abd-4d9d-80c7-02af85c822a",
        "936da01f-9abd-4d9d-80c7-02af85c822a88",
        "936da01f9-abd-4d9d-80c7-02af85c822a8",
        "936da01g-9abd-4d9d-80c7-02af85c822a8",
        "{936da01f9abd4d9d80c702af85c822a8}",
        "[936da01f-9abd-4d9d-80c7-02af85c822a8]",
        "urn-uuid:936da01f-9abd-4d9d-80c7-02af85c822a8",
        "-36da01f9abd4d9d80c702af85c822a8",
        "+36da01f9abd4d9d80c702af85c822a8",
    ] {
        assert_eq!(
            parse_service_id(text),
            Err(TaskmasterError::InvalidServiceId)
        );
    }
}

#[test]
fn request_identifiers_are_drawn_at_random() {
    let first = new_request_id();
    let second = new_request_id();

    assert_eq!((first >> 76) & 0xf, 4);
    assert_eq!((second >> 62) & 0x3, 2);
    assert_ne!(first, second);
}
