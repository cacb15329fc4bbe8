use ubus_runtime::container::{ContextContainer, ContextKind, ContextValue, UbusContainer};
use ubus_runtime::descriptor::{UbusMethod, UbusObject, UbusObjectType};

#[test]
fn context_access_with_matching_type() {
    let c = ContextContainer::new(ContextValue::Unsigned(7));
    assert_eq!(c.get(ContextKind::Unsigned), Some(ContextValue::Unsigned(7)));
}

#[test]
fn context_access_with_wrong_type_is_absent() {
    // A request for a type other than the stored one yields "absent",
    // never a wrong-typed value.
    let c = ContextContainer::new(ContextValue::Unsigned(7));
    assert_eq!(c.get(ContextKind::Signed), None);
    assert_eq!(c.get(ContextKind::Flag), None);

    let s = ContextContainer::new(ContextValue::Signed(-3));
    assert_eq!(s.get(ContextKind::Unsigned), None);
    assert_eq!(s.get(ContextKind::Signed), Some(ContextValue::Signed(-3)));

    let f = ContextContainer::new(ContextValue::Flag(true));
    assert_eq!(f.get(ContextKind::Signed), None);
    assert_eq!(f.get(ContextKind::Flag), Some(ContextValue::Flag(true)));
}

#[test]
fn context_exclusive_access_mutates_under_type_check() {
    let mut c = ContextContainer::new(ContextValue::Unsigned(1));
    assert!(c.get_mut(ContextKind::Flag).is_none());
    assert_eq!(c.get(ContextKind::Unsigned), Some(ContextValue::Unsigned(1)));
    {
        let m = c.get_mut(ContextKind::Unsigned).expect("matching type");
        *m = ContextValue::Unsigned(9);
    }
    assert_eq!(c.get(ContextKind::Unsigned), Some(ContextValue::Unsigned(9)));
}

fn small_object(name: &[u8]) -> UbusObject {
    let methods = vec![UbusMethod::new_const(name.to_vec())];
    let ty = UbusObjectType::new_const(name.to_vec(), vec![UbusMethod::new_const(name.to_vec())]);
    UbusObject::new_const(name.to_vec(), ty, methods)
}

#[test]
fn container_keeps_descriptor_and_context_together() {
    let obj = small_object(b"lamp");
    let mut rec = UbusContainer::new(obj, ContextValue::Flag(false));
    assert_eq!(rec.inner().name, b"lamp".to_vec());
    assert_eq!(rec.inner().id, 0);
    assert_eq!(rec.context().get(ContextKind::Flag), Some(ContextValue::Flag(false)));

    // exclusive descriptor access
    rec.get_mut().id = 5;
    assert_eq!(rec.inner().id, 5);

    // exclusive context access leaves the descriptor alone
    {
        let ctx = rec.context_mut();
        let m = ctx.get_mut(ContextKind::Flag).expect("matching type");
        *m = ContextValue::Flag(true);
    }
    assert_eq!(rec.inner().id, 5);
    assert_eq!(rec.context().get(ContextKind::Flag), Some(ContextValue::Flag(true)));

    let back = rec.into_inner();
    assert_eq!(back.name, b"lamp".to_vec());
    assert_eq!(back.id, 5);
}

#[test]
fn descriptor_constructors_zero_linkage_fields() {
    let m = UbusMethod::new_const(b"status".to_vec());
    assert_eq!(m.name, b"status".to_vec());
    let ty = UbusObjectType::new_const(b"iface".to_vec(), vec![m]);
    assert_eq!(ty.id, 0);
    assert_eq!(ty.methods.len(), 1);
    let obj = UbusObject::new_const(
        b"iface".to_vec(),
        ty,
        vec![UbusMethod::new_const(b"status".to_vec())],
    );
    assert_eq!(obj.id, 0);
    assert_eq!(obj.name, b"iface".to_vec());
    assert_eq!(obj.methods.len(), 1);
}
