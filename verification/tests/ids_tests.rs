use alpee_core::ids::{new_request_id, request_id_for};
use alpee_core::module::Module;

#[test]
fn request_id_is_the_hyphenated_lower_case_uuid() {
    assert_eq!(
        request_id_for(0x67e5_5044_10b1_426f_9247_bb68_0e5f_e0c8),
        "67e55044-10b1-426f-9247-bb680e5fe0c8"
    );
    assert_eq!(request_id_for(0), "00000000-0000-0000-0000-000000000000");
}

#[test]
fn fresh_ids_are_version_4() {
    let id = Module::new("m".to_string(), "1".to_string()).info.id;
    assert_eq!((id >> 76) & 0xf, 4);
    assert_eq!((id >> 62) & 0x3, 2);
}

#[test]
fn request_ids_are_hyphenated_version_4_texts() {
    let a = new_request_id();
    let b = new_request_id();
    assert_eq!(a.len(), 36);
    assert_eq!(a.chars().nth(14), Some('4'));
    assert_eq!(a.chars().nth(8), Some('-'));
    assert_ne!(a, b);
}
