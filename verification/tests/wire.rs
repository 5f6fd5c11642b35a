use spacenav_proxy::ident::generate_id;
use spacenav_proxy::wire::{
    build_read_call, build_result, build_update_call, build_welcome, connexion_object,
    decimal_string, instance_object, push_decimal, welcome_frame,
};

#[test]
fn generated_ids_are_sixteen_alphanumerics() {
    for _ in 0..200 {
        let id = generate_id();
        assert_eq!(id.len(), 16);
        assert_eq!(id.chars().count(), 16);
        assert!(id.chars().all(|c| c.is_ascii_alphanumeric()));
    }
}

#[test]
fn generated_ids_vary() {
    let first = generate_id();
    let mut differs = false;
    for _ in 0..20 {
        if generate_id() != first {
            differs = true;
        }
    }
    assert!(differs);
}

#[test]
fn decimal_string_formats_exactly() {
    assert_eq!(decimal_string(0), "0");
    assert_eq!(decimal_string(7), "7");
    assert_eq!(decimal_string(10), "10");
    assert_eq!(decimal_string(909), "909");
    assert_eq!(decimal_string(3042851224), "3042851224");
    assert_eq!(decimal_string(u32::MAX), "4294967295");
}

#[test]
fn push_decimal_appends() {
    let mut text = String::from("n=");
    push_decimal(&mut text, 1200);
    assert_eq!(text, "n=1200");
}

#[test]
fn welcome_frame_is_exact() {
    assert_eq!(
        build_welcome("abc"),
        "[0,\"abc\",1,\"Nl-Proxy v1.4.3.19386 Copyright 2013-2022 3Dconnexion. All rights reserved.\"]"
    );
    assert_eq!(
        welcome_frame(),
        "[0,\"8GXm6SS4smp3Ai0e\",1,\"Nl-Proxy v1.4.3.19386 Copyright 2013-2022 3Dconnexion. All rights reserved.\"]"
    );
}

#[test]
fn result_frame_is_exact() {
    assert_eq!(build_result("0.pim5f32a7ff", "{}".to_string()), "[3,\"0.pim5f32a7ff\",{}]");
    assert_eq!(
        build_result("c1", "{\"instance\":5}".to_string()),
        "[3,\"c1\",{\"instance\":5}]"
    );
}

#[test]
fn read_call_frame_is_exact() {
    assert_eq!(
        build_read_call(3042851224, "HxMA6bihFAoFhhHK", "view.affine"),
        "[8,\"3dconnexion:3dcontroller/3042851224\",[2,\"HxMA6bihFAoFhhHK\",\"self:read\",\"\",\"view.affine\"]]"
    );
    assert_eq!(
        build_read_call(0, "AEZWTPeAMmbGLPIB", "coordinateSystem"),
        "[8,\"3dconnexion:3dcontroller/0\",[2,\"AEZWTPeAMmbGLPIB\",\"self:read\",\"\",\"coordinateSystem\"]]"
    );
}

#[test]
fn read_call_frame_for_generated_id() {
    let id = generate_id();
    let instance = 77u32;
    assert_eq!(
        build_read_call(instance, &id, "view.affine"),
        format!(
            "[8,\"3dconnexion:3dcontroller/{}\",[2,\"{}\",\"self:read\",\"\",\"view.affine\"]]",
            instance, id
        )
    );
}

#[test]
fn update_call_frame_is_exact() {
    assert_eq!(
        build_update_call(12, "t3bLavZGeDHtHSly", "motion", "true"),
        "[8,\"3dconnexion:3dcontroller/12\",[2,\"t3bLavZGeDHtHSly\",\"self:update\",\"\",\"motion\",true]]"
    );
    assert_eq!(
        build_update_call(12, "DMr5ZjiANwTtk65Y", "settings.changed", "2"),
        "[8,\"3dconnexion:3dcontroller/12\",[2,\"DMr5ZjiANwTtk65Y\",\"self:update\",\"\",\"settings.changed\",2]]"
    );
}

#[test]
fn result_objects_are_exact() {
    assert_eq!(connexion_object("8GXm6SS4smp3Ai0e"), "{\"connexion\":\"8GXm6SS4smp3Ai0e\"}");
    assert_eq!(instance_object(4294967295), "{\"instance\":4294967295}");
    assert_eq!(instance_object(0), "{\"instance\":0}");
}
