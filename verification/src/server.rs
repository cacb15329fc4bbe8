use vstd::prelude::*;

use crate::UbusError;
use crate::container::{ContextValue, UbusContainer};
use crate::decoder::{
    parse_attr_payload, parse_payload_attrs, parse_typed_prefix, typed_prefix, be32, tag_size,
    msg_model, BlobIter, BlobMsg,
};
use crate::descriptor::{copy_bytes, copy_object, object_copied, UbusEventHandler, UbusObject};
use crate::registry::ContextRegistry;

verus! {

/// One step the collaborator-facing glue must perform while a runtime
/// instance is torn down, in the order the steps are listed: every owned
/// record is unregistered exactly once (objects first, then event
/// subscriptions), and the native handle is released last.
pub enum RemovalAction {
    RemoveObject(UbusObject),
    RemoveEvent(UbusEventHandler),
    ReleaseHandle(u64),
}

/// The runtime instance: owns one native connection handle, the liveness
/// flag, and the records of every published object and event subscription.
/// The collaborator-facing glue keeps the instance at a stable place and
/// refers to owned records by their slot, so a record stays put for its
/// whole registered lifetime.
///
/// Every operation that consults the collaborator takes the collaborator's
/// raw status as an argument and decides from it; the glue performs the call
/// and hands the status in.
///
/// Liveness moves only from connected to disconnected, through the
/// connection-lost callback, and back, through a successful reconnect; no
/// other operation changes it, and every operation's contract pins the flag.
pub struct UbusServer {
    handle: u64,
    fd: i32,
    instance: u64,
    active: bool,
    monitoring: bool,
    ubus_objs: Vec<UbusContainer<UbusObject>>,
    events: Vec<UbusContainer<UbusEventHandler>>,
}

impl UbusServer {
    /// The native connection handle.
    pub closed spec fn spec_handle(self) -> u64 {
        self.handle
    }

    /// The readiness descriptor captured at connect time.
    pub closed spec fn spec_fd(self) -> i32 {
        self.fd
    }

    /// The instance token under which this instance is registered.
    pub closed spec fn spec_instance(self) -> u64 {
        self.instance
    }

    /// The liveness flag.
    pub closed spec fn spec_active(self) -> bool {
        self.active
    }

    /// Whether connection-loss observation is enabled.
    pub closed spec fn spec_monitoring(self) -> bool {
        self.monitoring
    }

    /// The published-object records, in registration order.
    pub closed spec fn objects(self) -> Seq<UbusContainer<UbusObject>> {
        self.ubus_objs@
    }

    /// The event-subscription records, in registration order.
    pub closed spec fn events(self) -> Seq<UbusContainer<UbusEventHandler>> {
        self.events@
    }

    /// The connection identity and the monitoring switch of `a` and `b`
    /// agree.
    pub open spec fn same_connection(a: UbusServer, b: UbusServer) -> bool {
        a.spec_handle() == b.spec_handle() && a.spec_fd() == b.spec_fd() && a.spec_instance()
            == b.spec_instance() && a.spec_monitoring() == b.spec_monitoring()
    }

    /// The owned collections of `a` and `b` agree.
    pub open spec fn same_records(a: UbusServer, b: UbusServer) -> bool {
        a.objects() == b.objects() && a.events() == b.events()
    }

    /// Establishes one runtime instance over the outcome of the
    /// collaborator's connect call: `connect` carries the fresh native
    /// handle and its readiness descriptor, or nothing if the connect call
    /// failed.  On success the instance starts live, with monitoring off and
    /// no owned records, and is entered into the registry under its handle.
    /// A handle that is still registered to a live instance is refused, and
    /// neither the registry nor anything else changes.
    pub fn new(connect: Option<(u64, i32)>, instance: u64, registry: &mut ContextRegistry) -> (r:
        Result<UbusServer, UbusError>)
        requires
            old(registry).wf(),
        ensures
            final(registry).wf(),
            connect is None ==> r == Err::<UbusServer, UbusError>(UbusError::ConnectionFailed)
                && *final(registry) == *old(registry),
            (connect is Some && old(registry).spec_lookup(connect.unwrap().0) is Some) ==> r
                == Err::<UbusServer, UbusError>(UbusError::ConnectionFailed) && *final(registry)
                == *old(registry),
            (connect is Some && old(registry).spec_lookup(connect.unwrap().0) is None) ==> (
            r matches Ok(s) && s.spec_handle() == connect.unwrap().0 && s.spec_fd()
                == connect.unwrap().1 && s.spec_instance() == instance && s.spec_active()
                && !s.spec_monitoring() && s.objects().len() == 0 && s.events().len() == 0 && final(registry).spec_lookup(connect.unwrap().0) == Some(instance) && (forall|h: u64|
                h != connect.unwrap().0 ==> final(registry).spec_lookup(h) == old(registry).spec_lookup(h))),
    {
        match connect {
            None => Err(UbusError::ConnectionFailed),
            Some((handle, fd)) => {
                let ok = registry.insert(handle, instance);
                if !ok {
                    Err(UbusError::ConnectionFailed)
                } else {
                    Ok(
                        UbusServer {
                            handle,
                            fd,
                            instance,
                            active: true,
                            monitoring: false,
                            ubus_objs: Vec::new(),
                            events: Vec::new(),
                        },
                    )
                }
            },
        }
    }

    /// The readiness descriptor to hand to an external multiplexer.
    pub fn raw_fd(&self) -> (r: i32)
        ensures
            r == self.spec_fd(),
    {
        self.fd
    }

    /// The liveness flag, as mutated by the connection-lost callback and by
    /// successful reconnects.
    pub fn is_online(&self) -> (r: bool)
        ensures
            r == self.spec_active(),
    {
        self.active
    }

    /// Whether connection-loss observation is currently enabled.
    pub fn is_monitoring(&self) -> (r: bool)
        ensures
            r == self.spec_monitoring(),
    {
        self.monitoring
    }

    /// How many objects this instance has published and still owns.
    pub fn object_count(&self) -> (r: usize)
        ensures
            r == self.objects().len(),
    {
        self.ubus_objs.len()
    }

    /// How many event subscriptions this instance still owns.
    pub fn event_count(&self) -> (r: usize)
        ensures
            r == self.events().len(),
    {
        self.events.len()
    }

    /// Publishes one object: embeds a copy of the template's
    /// collaborator-visible fields (linkage zeroed) together with the
    /// caller's context in a fresh record.  `status` is the collaborator's
    /// answer to the add-object call on that record: zero retains the record
    /// for the instance's lifetime; anything else rolls the record back
    /// fully and surfaces the raw status.
    pub fn add_object_static(&mut self, obj: &UbusObject, ctxt: ContextValue, status: i32) -> (r:
        Result<(), UbusError>)
        ensures
            Self::same_connection(*final(self), *old(self)),
            final(self).spec_active() == old(self).spec_active(),
            final(self).events() == old(self).events(),
            status == 0 ==> r == Ok::<(), UbusError>(()) && final(self).objects().len() == old(self).objects().len() + 1 && final(self).objects().drop_last() == old(self).objects()
                && object_copied(final(self).objects().last().spec_inner(), *obj) && final(self).objects().last().spec_context() == ctxt,
            status != 0 ==> r == Err::<(), UbusError>(UbusError::RegistrationFailed(status))
                && final(self).objects() == old(self).objects(),
    {
        let record = UbusContainer::new(copy_object(obj), ctxt);
        self.ubus_objs.push(record);
        if status != 0 {
            let _ = self.ubus_objs.pop();
            proof {
                assert(self.ubus_objs@ =~= old(self).ubus_objs@);
            }
            return Err(UbusError::RegistrationFailed(status));
        }
        proof {
            assert(self.ubus_objs@.drop_last() =~= old(self).ubus_objs@);
        }
        Ok(())
    }

    /// Subscribes to pattern-matched events: symmetric to
    /// [`Self::add_object_static`], with the same rollback-on-failure
    /// discipline.  The record keeps the pattern; the callback slot lives
    /// with the collaborator-facing glue.
    pub fn register_event_handler(
        &mut self,
        pattern: &Vec<u8>,
        ctxt: ContextValue,
        status: i32,
    ) -> (r: Result<(), UbusError>)
        ensures
            Self::same_connection(*final(self), *old(self)),
            final(self).spec_active() == old(self).spec_active(),
            final(self).objects() == old(self).objects(),
            status == 0 ==> r == Ok::<(), UbusError>(()) && final(self).events().len() == old(self).events().len() + 1 && final(self).events().drop_last() == old(self).events() && final(self).events().last().spec_inner().pattern@ == pattern@ && final(self).events().last().spec_context() == ctxt,
            status != 0 ==> r == Err::<(), UbusError>(UbusError::RegistrationFailed(status))
                && final(self).events() == old(self).events(),
    {
        let record = UbusContainer::new(
            UbusEventHandler { pattern: copy_bytes(pattern) },
            ctxt,
        );
        self.events.push(record);
        if status != 0 {
            let _ = self.events.pop();
            proof {
                assert(self.events@ =~= old(self).events@);
            }
            return Err(UbusError::RegistrationFailed(status));
        }
        proof {
            assert(self.events@.drop_last() =~= old(self).events@);
        }
        Ok(())
    }

    /// The record a published object lives in, by its stable slot; the
    /// reverse of handing slot `slot`'s descriptor to the collaborator.
    /// Recovery yields exactly the record that was stored.
    pub fn object_at(&self, slot: usize) -> (r: &UbusContainer<UbusObject>)
        requires
            slot < self.objects().len(),
        ensures
            *r == self.objects()[slot as int],
    {
        &self.ubus_objs[slot]
    }

    /// The record an event subscription lives in, by its stable slot.
    pub fn event_at(&self, slot: usize) -> (r: &UbusContainer<UbusEventHandler>)
        requires
            slot < self.events().len(),
        ensures
            *r == self.events()[slot as int],
    {
        &self.events[slot]
    }

    /// Toggles whether the collaborator observes connection loss for this
    /// instance.  Nothing else changes.
    pub fn set_connection_lost(&mut self, cl: bool)
        ensures
            final(self).spec_monitoring() == cl,
            final(self).spec_handle() == old(self).spec_handle(),
            final(self).spec_fd() == old(self).spec_fd(),
            final(self).spec_instance() == old(self).spec_instance(),
            final(self).spec_active() == old(self).spec_active(),
            Self::same_records(*final(self), *old(self)),
    {
        self.monitoring = cl;
    }

    /// The connection-lost callback's decision: looked up from the bare
    /// `handle` through the registry, and applied only if this instance is
    /// the registered owner.  When it applies, liveness falls to
    /// disconnected; nothing else ever changes here.
    pub fn on_connection_lost(&mut self, handle: u64, registry: &ContextRegistry) -> (r: bool)
        requires
            registry.wf(),
        ensures
            Self::same_connection(*final(self), *old(self)),
            Self::same_records(*final(self), *old(self)),
            r == (registry.spec_lookup(handle) == Some(old(self).spec_instance()) && handle == old(self).spec_handle()),
            r ==> !final(self).spec_active(),
            !r ==> final(self).spec_active() == old(self).spec_active(),
    {
        match registry.lookup(handle) {
            Some(instance) => {
                if instance == self.instance && handle == self.handle {
                    self.active = false;
                    true
                } else {
                    false
                }
            },
            None => false,
        }
    }

    /// Recovers the instance token that owns `handle`, as the
    /// collaborator-invoked callbacks must from the bare handle alone.
    pub fn from_ubus_ctx(handle: u64, registry: &ContextRegistry) -> (r: Option<u64>)
        requires
            registry.wf(),
        ensures
            r == registry.spec_lookup(handle),
    {
        registry.lookup(handle)
    }

    /// Re-establishes the connection after an observed loss.  Meaningful
    /// only with monitoring enabled: otherwise it fails and changes
    /// nothing, whatever `status` says.  With monitoring on, `status` is the
    /// collaborator's answer to the reconnect call: zero raises liveness
    /// back to connected; anything else fails with a connection error and
    /// leaves liveness as it was.
    pub fn reconnect(&mut self, status: i32) -> (r: Result<(), UbusError>)
        ensures
            Self::same_connection(*final(self), *old(self)),
            Self::same_records(*final(self), *old(self)),
            !old(self).spec_monitoring() ==> r == Err::<(), UbusError>(
                UbusError::MonitoringNotEnabled,
            ) && final(self).spec_active() == old(self).spec_active(),
            old(self).spec_monitoring() && status != 0 ==> r == Err::<(), UbusError>(
                UbusError::ConnectionFailed,
            ) && final(self).spec_active() == old(self).spec_active(),
            old(self).spec_monitoring() && status == 0 ==> r == Ok::<(), UbusError>(()) && final(self).spec_active(),
    {
        if !self.monitoring {
            return Err(UbusError::MonitoringNotEnabled);
        }
        if status != 0 {
            return Err(UbusError::ConnectionFailed);
        }
        self.active = true;
        Ok(())
    }

    /// Runs the decoder over one raw attribute: the walk covers the
    /// attribute's declared payload region, or nothing if its own header
    /// fails validation.
    pub fn parse_msg(&self, msg: &Vec<u8>) -> (r: BlobIter)
        ensures
            r.wf(),
            r.spec_offset() == 0,
            (msg@.len() >= 4 && 4 <= tag_size(be32(msg@, 0)) <= msg@.len()) ==> r.data_seq() == msg@
                .subrange(4, tag_size(be32(msg@, 0))),
            !(msg@.len() >= 4 && 4 <= tag_size(be32(msg@, 0)) <= msg@.len()) ==> r.data_seq().len()
                == 0,
    {
        parse_attr_payload(msg)
    }

    /// The consumer-driving variant of [`Self::parse_msg`]: types each
    /// sibling in turn and returns those before the first one that fails to
    /// convert, which ends the sequence silently.
    pub fn parse_msg_cb(&self, msg: &Vec<u8>) -> (r: Vec<BlobMsg>)
        ensures
            r@.map_values(|m: BlobMsg| msg_model(m)) == typed_prefix(parse_payload_attrs(msg@)),
    {
        parse_typed_prefix(msg)
    }

    /// Tears the instance down: unregisters every owned record from the
    /// collaborator exactly once — objects first, then event subscriptions,
    /// each in registration order — then removes the instance from the
    /// registry, and releases the native handle last.  The returned actions
    /// are that exact plan for the collaborator-facing glue, which performs
    /// them in order and discards individual failures: teardown always
    /// completes.
    pub fn teardown(self, registry: &mut ContextRegistry) -> (r: Vec<RemovalAction>)
        requires
            old(registry).wf(),
        ensures
            final(registry).wf(),
            final(registry).spec_lookup(self.spec_handle()) is None,
            forall|h: u64|
                h != self.spec_handle() ==> final(registry).spec_lookup(h) == old(registry).spec_lookup(h),
            r@.len() == self.objects().len() + self.events().len() + 1,
            forall|i: int|
                0 <= i < self.objects().len() ==> r@[i] == RemovalAction::RemoveObject(
                    self.objects()[i].spec_inner(),
                ),
            forall|i: int|
                self.objects().len() <= i < self.objects().len() + self.events().len() ==> r@[i]
                    == RemovalAction::RemoveEvent(
                    self.events()[i - self.objects().len()].spec_inner(),
                ),
            r@.last() == RemovalAction::ReleaseHandle(self.spec_handle()),
    {
        let UbusServer { handle, fd: _, instance: _, active: _, monitoring: _, ubus_objs, events } =
            self;
        let ghost orig_objs = ubus_objs@;
        let ghost orig_events = events@;
        let mut objs = ubus_objs;
        let mut evs = events;
        let mut actions: Vec<RemovalAction> = Vec::new();
        let total_objs: usize = objs.len();
        let mut done: usize = 0;
        while objs.len() > 0
            invariant
                total_objs == orig_objs.len(),
                done + objs@.len() == orig_objs.len(),
                objs@ =~= orig_objs.subrange(done as int, orig_objs.len() as int),
                actions@.len() == done,
                forall|i: int|
                    0 <= i < done ==> actions@[i] == RemovalAction::RemoveObject(
                        orig_objs[i].spec_inner(),
                    ),
            decreases objs@.len(),
        {
            let c = objs.remove(0);
            proof {
                assert(c == orig_objs[done as int]);
                assert(objs@ =~= orig_objs.subrange(done as int + 1, orig_objs.len() as int));
            }
            actions.push(RemovalAction::RemoveObject(c.into_inner()));
            done = done + 1;
        }
        let total_evs: usize = evs.len();
        let mut edone: usize = 0;
        while evs.len() > 0
            invariant
                done == orig_objs.len(),
                total_evs == orig_events.len(),
                edone + evs@.len() == orig_events.len(),
                evs@ =~= orig_events.subrange(edone as int, orig_events.len() as int),
                actions@.len() == done + edone,
                forall|i: int|
                    0 <= i < done ==> actions@[i] == RemovalAction::RemoveObject(
                        orig_objs[i].spec_inner(),
                    ),
                forall|i: int|
                    done <= i < done + edone ==> actions@[i] == RemovalAction::RemoveEvent(
                        orig_events[i - done].spec_inner(),
                    ),
            decreases evs@.len(),
        {
            let c = evs.remove(0);
            proof {
                assert(c == orig_events[edone as int]);
                assert(evs@ =~= orig_events.subrange(edone as int + 1, orig_events.len() as int));
            }
            actions.push(RemovalAction::RemoveEvent(c.into_inner()));
            edone = edone + 1;
        }
        let _ = registry.remove(handle);
        actions.push(RemovalAction::ReleaseHandle(handle));
        actions
    }
}

} // verus!
