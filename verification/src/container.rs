use vstd::prelude::*;

verus! {

/// The concrete type of a context payload; used for type-checked, fallible
/// access to a [`ContextContainer`].  The set of context types an embedding
/// application may attach is closed, so the runtime-typed payload is modelled
/// as a tagged union rather than an open-ended existential.
#[derive(PartialEq, Eq, Structural, Clone, Copy, Debug)]
pub enum ContextKind {
    Unsigned,
    Signed,
    Flag,
}

/// A caller-supplied context payload, tagged with its concrete type.
#[derive(PartialEq, Eq, Structural, Clone, Copy, Debug)]
pub enum ContextValue {
    Unsigned(u64),
    Signed(i64),
    Flag(bool),
}

impl ContextValue {
    /// The type tag carried by this payload.
    pub open spec fn spec_kind(self) -> ContextKind {
        match self {
            ContextValue::Unsigned(_) => ContextKind::Unsigned,
            ContextValue::Signed(_) => ContextKind::Signed,
            ContextValue::Flag(_) => ContextKind::Flag,
        }
    }

    pub fn kind(&self) -> (k: ContextKind)
        ensures
            k == self.spec_kind(),
    {
        match self {
            ContextValue::Unsigned(_) => ContextKind::Unsigned,
            ContextValue::Signed(_) => ContextKind::Signed,
            ContextValue::Flag(_) => ContextKind::Flag,
        }
    }
}

/// Holds one dynamically-typed context value whose concrete type is fixed at
/// construction.  Access is type-checked and fallible: a request for a type
/// other than the stored one yields "absent", never a wrong-typed value.
/// Exclusive access goes through `&mut self`, so conflicting simultaneous
/// writers are ruled out by the borrow discipline instead of a runtime check.
pub struct ContextContainer {
    inner: ContextValue,
}

impl ContextContainer {
    /// The stored payload.
    pub closed spec fn value(self) -> ContextValue {
        self.inner
    }

    pub fn new(value: ContextValue) -> (r: Self)
        ensures
            r.value() == value,
    {
        ContextContainer { inner: value }
    }

    /// Read access under a type check: the payload if `requested` names the
    /// stored type, absent otherwise.
    pub fn get(&self, requested: ContextKind) -> (r: Option<ContextValue>)
        ensures
            self.value().spec_kind() == requested ==> r == Some(self.value()),
            self.value().spec_kind() != requested ==> r is None,
    {
        if self.inner.kind() == requested {
            Some(self.inner)
        } else {
            None
        }
    }

    /// Exclusive access under the same type check; a mismatched request
    /// leaves the container untouched and yields absent.
    pub fn get_mut(&mut self, requested: ContextKind) -> (r: Option<&mut ContextValue>)
        ensures
            old(self).value().spec_kind() != requested ==> r.is_none() && *final(self) == *old(
                self,
            ),
            old(self).value().spec_kind() == requested ==> r.is_some() && *r.unwrap() == old(
                self,
            ).value() && final(self).value() == *final(r.unwrap()),
    {
        if self.inner.kind() == requested {
            Some(&mut self.inner)
        } else {
            None
        }
    }
}

/// Co-locates a collaborator-visible descriptor of type `T` with the caller's
/// context.  The descriptor is embedded by value, so a registered record keeps
/// the descriptor and its context together for the record's whole lifetime;
/// recovery from the collaborator's side goes through the stable slot the
/// owning runtime instance stores the container in.
pub struct UbusContainer<T> {
    inner: T,
    ctxt: ContextContainer,
}

impl<T> UbusContainer<T> {
    /// The embedded collaborator-visible descriptor.
    pub closed spec fn spec_inner(self) -> T {
        self.inner
    }

    /// The attached context payload.
    pub closed spec fn spec_context(self) -> ContextValue {
        self.ctxt.value()
    }

    pub fn new(inner: T, ctxt_value: ContextValue) -> (r: Self)
        ensures
            r.spec_inner() == inner,
            r.spec_context() == ctxt_value,
    {
        UbusContainer { inner, ctxt: ContextContainer::new(ctxt_value) }
    }

    /// Surrenders the embedded descriptor; the last step of unregistering,
    /// once the collaborator no longer refers to the record.
    pub fn into_inner(self) -> (r: T)
        ensures
            r == self.spec_inner(),
    {
        self.inner
    }

    /// A view of the embedded descriptor.
    pub fn inner(&self) -> (r: &T)
        ensures
            *r == self.spec_inner(),
    {
        &self.inner
    }

    /// Exclusive access to the embedded descriptor.
    pub fn get_mut(&mut self) -> (r: &mut T)
        ensures
            *r == old(self).spec_inner(),
            final(self).spec_inner() == *final(r),
            final(self).spec_context() == old(self).spec_context(),
    {
        &mut self.inner
    }

    /// The context payload, behind its type-checked accessor.
    pub fn context(&self) -> (r: &ContextContainer)
        ensures
            r.value() == self.spec_context(),
    {
        &self.ctxt
    }

    /// Exclusive access to the context payload.
    pub fn context_mut(&mut self) -> (r: &mut ContextContainer)
        ensures
            r.value() == old(self).spec_context(),
            final(self).spec_context() == final(r).value(),
            final(self).spec_inner() == old(self).spec_inner(),
    {
        &mut self.ctxt
    }
}

} // verus!
