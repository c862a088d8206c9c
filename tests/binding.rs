use gl_wrapper::binding::{BindCall, Bouncer, BouncerError, BouncerRegistry, DeleteCall, LastBound, ResourceKind};
use gl_wrapper::glenum::{ElemType, ARRAY_BUFFER, TEXTURE_2D};
use gl_wrapper::render::texture::Texture2D;
use gl_wrapper::util::buffer_obj::VBO;

#[test]
fn second_bouncer_for_a_slot_is_refused() {
    let mut reg = BouncerRegistry::new();
    let first = Bouncer::new(&mut reg, ResourceKind::Texture, 3);
    assert!(first.is_ok());
    assert_eq!(first.unwrap().slot(), 3);
    assert_eq!(
        Bouncer::new(&mut reg, ResourceKind::Texture, 3).err(),
        Some(BouncerError::SlotTaken { kind: ResourceKind::Texture, slot: 3 })
    );
    assert_eq!(
        Bouncer::new(&mut reg, ResourceKind::Texture, 3).err(),
        Some(BouncerError::SlotTaken { kind: ResourceKind::Texture, slot: 3 })
    );
}

#[test]
fn slots_of_other_kinds_stay_free() {
    let mut reg = BouncerRegistry::new();
    assert!(Bouncer::new(&mut reg, ResourceKind::Texture, 0).is_ok());
    assert!(Bouncer::new(&mut reg, ResourceKind::Texture, 1).is_ok());
    assert!(Bouncer::new(&mut reg, ResourceKind::Program, 0).is_ok());
    assert!(Bouncer::new(&mut reg, ResourceKind::ArrayBuffer, 0).is_ok());
    assert!(reg.is_taken(ResourceKind::Texture, 1));
    assert!(!reg.is_taken(ResourceKind::Texture, 2));
    assert!(!reg.is_taken(ResourceKind::VertexArray, 0));
}

#[test]
fn slot_out_of_range_is_refused() {
    let mut reg = BouncerRegistry::new();
    assert_eq!(
        Bouncer::new(&mut reg, ResourceKind::Program, 1).err(),
        Some(BouncerError::SlotOutOfRange { kind: ResourceKind::Program, slot: 1 })
    );
    assert_eq!(
        Bouncer::new(&mut reg, ResourceKind::Texture, 256).err(),
        Some(BouncerError::SlotOutOfRange { kind: ResourceKind::Texture, slot: 256 })
    );
    assert!(Bouncer::new(&mut reg, ResourceKind::Texture, 255).is_ok());
    assert!(!reg.is_taken(ResourceKind::Program, 1));
}

#[test]
fn released_bouncer_binds_again() {
    let mut reg = BouncerRegistry::new();
    let mut last = LastBound::new();
    let mut bn = Bouncer::new(&mut reg, ResourceKind::ArrayBuffer, 0).unwrap();
    let vbo = VBO::new(7, ElemType::Float, vec![2, 2]);
    let (bound, call) = vbo.bind(&mut bn, &mut last);
    assert_eq!(
        call,
        BindCall { kind: ResourceKind::ArrayBuffer, active_unit: None, target: ARRAY_BUFFER, handle: 7 }
    );
    assert_eq!(bound.slot(), 0);
    let vbo = bound.release();
    let other = VBO::new(8, ElemType::Float, vec![3]);
    let (bound, call) = other.bind(&mut bn, &mut last);
    assert_eq!(call.handle, 8);
    drop(bound);
    let (again, call) = vbo.bind(&mut bn, &mut last);
    assert_eq!(call.handle, 7);
    assert_eq!(again.get().get_elem_per_vertex(), &vec![2u8, 2]);
}

#[test]
fn texture_unit_switch_is_skipped_when_already_active() {
    let mut reg = BouncerRegistry::new();
    let mut last = LastBound::new();
    let mut unit0 = Bouncer::new(&mut reg, ResourceKind::Texture, 0).unwrap();
    let mut unit5 = Bouncer::new(&mut reg, ResourceKind::Texture, 5).unwrap();
    let (tex, calls) = Texture2D::new(&mut unit0, &mut last, 11);
    assert_eq!(calls.len(), 3);
    assert_eq!(last.unit(), 0);
    let (bound, call) = tex.bind(&mut unit5, &mut last);
    assert_eq!(
        call,
        BindCall { kind: ResourceKind::Texture, active_unit: Some(5), target: TEXTURE_2D, handle: 11 }
    );
    assert_eq!(last.unit(), 5);
    let tex = bound.release();
    let (_bound, call) = tex.bind(&mut unit5, &mut last);
    assert_eq!(call.active_unit, None);
}

#[test]
fn destroy_names_the_handle_to_delete() {
    let vbo = VBO::new(21, ElemType::Float, vec![1]);
    assert_eq!(vbo.destroy(), DeleteCall { kind: ResourceKind::ArrayBuffer, handle: 21 });
    let mut reg = BouncerRegistry::new();
    let mut last = LastBound::new();
    let mut bn = Bouncer::new(&mut reg, ResourceKind::Texture, 9).unwrap();
    let (tex, _) = Texture2D::new(&mut bn, &mut last, 22);
    assert_eq!(tex.destroy(), DeleteCall { kind: ResourceKind::Texture, handle: 22 });
}
