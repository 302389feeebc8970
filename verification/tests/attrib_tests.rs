//! Attribute registration and validation: duplicate names are rejected
//! with the first registration kept, and validation reports exactly the
//! missing and unknown names.

use glitter::program::ProgramAttrib;
use glitter::vertex_data::{AttribDatumType, VertexAttribute, VertexAttributeType};
use glitter::vertex_buffer::{AttribAddError, AttribBinder};

fn field(name: &str) -> VertexAttribute {
    VertexAttribute {
        name: name.to_string(),
        ty: VertexAttributeType { components: 3, data: AttribDatumType::Float, normalize: false },
        stride: 12,
        offset: 0,
    }
}

#[test]
fn matching_field_sets_validate() {
    let mut binder = AttribBinder::new();
    binder.add("pos", ProgramAttrib { gl_index: 0 }).unwrap();
    binder.add("color", ProgramAttrib { gl_index: 1 }).unwrap();
    let fields = vec![field("pos"), field("color")];
    assert!(binder.validate(&fields).is_ok());
}

#[test]
fn registered_name_the_record_lacks_is_unknown() {
    let mut binder = AttribBinder::new();
    binder.add("pos", ProgramAttrib { gl_index: 0 }).unwrap();
    binder.add("color", ProgramAttrib { gl_index: 1 }).unwrap();
    let fields = vec![field("pos")];
    let err = binder.validate(&fields).unwrap_err();
    assert!(err.missing_attribs().is_empty());
    assert_eq!(*err.unknown_attribs(), vec!["color".to_string()]);
}

#[test]
fn unregistered_field_is_reported_and_extra_registration_too() {
    let mut binder = AttribBinder::new();
    binder.add("pos", ProgramAttrib { gl_index: 0 }).unwrap();
    binder.add("color", ProgramAttrib { gl_index: 1 }).unwrap();
    binder.add("normal", ProgramAttrib { gl_index: 2 }).unwrap();
    let fields = vec![field("pos"), field("color")];
    let err = binder.validate(&fields).unwrap_err();
    assert!(err.missing_attribs().is_empty());
    assert_eq!(*err.unknown_attribs(), vec!["normal".to_string()]);
}

#[test]
fn missing_registration_is_reported_by_field_name() {
    let mut binder = AttribBinder::new();
    binder.add("pos", ProgramAttrib { gl_index: 0 }).unwrap();
    let fields = vec![field("pos"), field("color")];
    let err = binder.validate(&fields).unwrap_err();
    assert_eq!(*err.missing_attribs(), vec!["color".to_string()]);
    assert!(err.unknown_attribs().is_empty());
}

#[test]
fn duplicate_add_is_rejected_and_keeps_the_first_registration() {
    let mut binder = AttribBinder::new();
    binder.add("pos", ProgramAttrib { gl_index: 1 }).unwrap();
    let err = binder.add("pos", ProgramAttrib { gl_index: 9 }).unwrap_err();
    let AttribAddError::DuplicateAttrib(name) = err;
    assert_eq!(name, "pos");
    assert_eq!(binder.attribs().len(), 1);
    assert_eq!(binder.attribs()[0].0, "pos");
    assert_eq!(binder.attribs()[0].1, ProgramAttrib { gl_index: 1 });
}

#[test]
fn validation_reports_in_declaration_and_registration_order() {
    let mut binder = AttribBinder::new();
    binder.add("b", ProgramAttrib { gl_index: 0 }).unwrap();
    binder.add("a", ProgramAttrib { gl_index: 1 }).unwrap();
    let fields = vec![field("z"), field("y")];
    let err = binder.validate(&fields).unwrap_err();
    assert_eq!(*err.missing_attribs(), vec!["z".to_string(), "y".to_string()]);
    assert_eq!(*err.unknown_attribs(), vec!["b".to_string(), "a".to_string()]);
}

#[test]
fn empty_binder_validates_an_empty_record() {
    let binder = AttribBinder::new();
    let fields: Vec<VertexAttribute> = Vec::new();
    assert!(binder.validate(&fields).is_ok());
}

#[test]
fn empty_binder_reports_every_field_missing() {
    let binder = AttribBinder::new();
    let fields = vec![field("pos")];
    let err = binder.validate(&fields).unwrap_err();
    assert_eq!(*err.missing_attribs(), vec!["pos".to_string()]);
    assert!(err.unknown_attribs().is_empty());
}
