use vstd::prelude::*;

verus! {

/// One callable method of a published object: a named slot in the object's
/// method table.  The collaborator-side handler lives with the unverified
/// glue; the record keeps the collaborator-visible name.
pub struct UbusMethod {
    pub name: Vec<u8>,
}

/// The type descriptor shared by published objects: a name, a method table,
/// and a linkage field the bus fills in after registration.
pub struct UbusObjectType {
    pub name: Vec<u8>,
    pub methods: Vec<UbusMethod>,
    pub id: u32,
}

/// A published object's collaborator-visible descriptor.  The linkage field
/// `id` is zero until the bus assigns one; a freshly built or freshly copied
/// descriptor always carries zero there.
pub struct UbusObject {
    pub name: Vec<u8>,
    pub object_type: UbusObjectType,
    pub methods: Vec<UbusMethod>,
    pub id: u32,
}

/// An event subscription's record: the pattern the subscription matches.
/// The callback slot itself belongs to the collaborator-facing glue.
pub struct UbusEventHandler {
    pub pattern: Vec<u8>,
}

/// Element-wise equality of two method tables.
pub open spec fn methods_eq(a: Seq<UbusMethod>, b: Seq<UbusMethod>) -> bool {
    a.len() == b.len() && forall|i: int| 0 <= i < a.len() ==> a[i].name@ == b[i].name@
}

/// `dst` carries the collaborator-visible fields of `src` with the linkage
/// fields reset to their unregistered state.
pub open spec fn object_copied(dst: UbusObject, src: UbusObject) -> bool {
    &&& dst.name@ == src.name@
    &&& dst.object_type.name@ == src.object_type.name@
    &&& methods_eq(dst.object_type.methods@, src.object_type.methods@)
    &&& dst.object_type.id == src.object_type.id
    &&& methods_eq(dst.methods@, src.methods@)
    &&& dst.id == 0
}

impl UbusMethod {
    /// A method-table entry with the given name.
    pub fn new_const(name: Vec<u8>) -> (r: Self)
        ensures
            r.name@ == name@,
    {
        UbusMethod { name }
    }
}

impl UbusObjectType {
    /// A type descriptor over the given method table; the bus-assigned
    /// linkage field starts at zero.
    pub fn new_const(name: Vec<u8>, methods: Vec<UbusMethod>) -> (r: Self)
        ensures
            r.name@ == name@,
            r.methods@ == methods@,
            r.id == 0,
    {
        UbusObjectType { name, methods, id: 0 }
    }
}

impl UbusObject {
    /// An object descriptor over the given type and method table, with every
    /// linkage field in its unregistered (zero) state.
    pub fn new_const(name: Vec<u8>, object_type: UbusObjectType, methods: Vec<UbusMethod>) -> (r:
        Self)
        ensures
            r.name@ == name@,
            r.object_type == object_type,
            r.methods@ == methods@,
            r.id == 0,
    {
        UbusObject { name, object_type, methods, id: 0 }
    }
}

/// A fresh copy of a byte string.
pub fn copy_bytes(v: &Vec<u8>) -> (r: Vec<u8>)
    ensures
        r@ == v@,
{
    let mut r: Vec<u8> = Vec::new();
    let mut i: usize = 0;
    while i < v.len()
        invariant
            i <= v@.len(),
            r@ =~= v@.subrange(0, i as int),
        decreases v@.len() - i,
    {
        r.push(v[i]);
        i = i + 1;
    }
    proof {
        assert(r@ =~= v@);
    }
    r
}

/// A fresh copy of a method table.
pub fn copy_methods(ms: &Vec<UbusMethod>) -> (r: Vec<UbusMethod>)
    ensures
        methods_eq(r@, ms@),
{
    let mut r: Vec<UbusMethod> = Vec::new();
    let mut i: usize = 0;
    while i < ms.len()
        invariant
            i <= ms@.len(),
            r@.len() == i,
            forall|j: int| 0 <= j < i ==> r@[j].name@ == ms@[j].name@,
        decreases ms@.len() - i,
    {
        r.push(UbusMethod { name: copy_bytes(&ms[i].name) });
        i = i + 1;
    }
    r
}

/// The copy `publish` embeds into a fresh record: the collaborator-visible
/// fields of the template, with the linkage fields zeroed.
pub fn copy_object(src: &UbusObject) -> (r: UbusObject)
    ensures
        object_copied(r, *src),
{
    UbusObject {
        name: copy_bytes(&src.name),
        object_type: UbusObjectType {
            name: copy_bytes(&src.object_type.name),
            methods: copy_methods(&src.object_type.methods),
            id: src.object_type.id,
        },
        methods: copy_methods(&src.methods),
        id: 0,
    }
}

} // verus!
