use vstd::prelude::*;

use crate::handler::CProtocolHandler;
use crate::message::{
    c_message_ok, convert_message, domain_of, filter_key, filter_key_of, message_to_c, CMessage,
    FacadeKind, Message, MessageKind, MessageView,
};
use crate::status::{wrap_status, BoundaryError, Status};
use crate::text::{bytes_eq, clone_bytes, text_ok, Text};
use crate::user_data::UserData;

verus! {

/// The address of a foreign function with the fixed two-argument shape
/// (payload pointer, context pointer). The boundary stores and hands back
/// the address; it never calls through it itself.
#[derive(Clone, Copy, PartialEq, Eq, Structural, Debug)]
pub struct ForeignCallback(pub u64);

/// Mathematical content of one callback registration.
pub struct RegistrationView {
    pub event: MessageKind,
    pub filter: Option<Seq<u8>>,
    pub callback: u64,
    pub user_data: u64,
}

/// One persistent callback registration: a foreign function address paired
/// with a duplicated context word, and the event it listens for, optionally
/// narrowed by a filter value. There is no unsubscribe operation: a
/// registration lives as long as the enclosing facade handle.
pub struct Registration {
    pub event: MessageKind,
    pub filter: Option<Text>,
    pub callback: ForeignCallback,
    pub user_data: UserData,
}

impl View for Registration {
    type V = RegistrationView;

    open spec fn view(&self) -> RegistrationView {
        RegistrationView {
            event: self.event,
            filter: match self.filter {
                Some(t) => Some(t@),
                None => None,
            },
            callback: self.callback.0,
            user_data: self.user_data.0,
        }
    }
}

/// Mathematical content of one accepted publish.
#[verifier::ext_equal]
pub struct DispatchView {
    pub filters: Seq<Seq<u8>>,
    pub message: MessageView,
}

/// One publish accepted for asynchronous dispatch: the converted filter
/// values and the converted message, exactly as the facade's send method
/// received them.
pub struct Dispatch {
    pub filters: Vec<Text>,
    pub message: Message,
}

/// The byte content of a sequence of internal text values.
pub open spec fn text_seqs(v: Seq<Text>) -> Seq<Seq<u8>> {
    v.map_values(|t: Text| t@)
}

/// The byte content of a sequence of raw byte fields.
pub open spec fn byte_seqs(v: Seq<Vec<u8>>) -> Seq<Seq<u8>> {
    v.map_values(|b: Vec<u8>| b@)
}

/// Every filter value in the sequence is well-formed text.
pub open spec fn filters_ok(fs: Seq<Seq<u8>>) -> bool {
    forall|i: int| 0 <= i < fs.len() ==> text_ok(#[trigger] fs[i])
}

/// The byte content of an optional filter value.
pub open spec fn opt_bytes(f: Option<Vec<u8>>) -> Option<Seq<u8>> {
    match f {
        Some(b) => Some(b@),
        None => None,
    }
}

/// An absent filter is fine; a present one must be well-formed text.
pub open spec fn opt_filter_ok(f: Option<Seq<u8>>) -> bool {
    f is Some ==> text_ok(f->0)
}

impl View for Dispatch {
    type V = DispatchView;

    open spec fn view(&self) -> DispatchView {
        DispatchView { filters: text_seqs(self.filters@), message: self.message@ }
    }
}

/// Internal facade object for one domain: what the boundary keeps of the
/// domain-scoped publish/subscribe interface obtained from the handler. Its
/// send method only queues for asynchronous dispatch, modelled by the
/// outbox; its subscribe methods append persistent registrations.
pub struct Facade {
    pub kind: FacadeKind,
    pub registrations: Vec<Registration>,
    pub outbox: Vec<Dispatch>,
}

/// Mathematical content of one facade handle.
#[verifier::ext_equal]
pub struct CFacadeView {
    pub kind: FacadeKind,
    pub registrations: Seq<RegistrationView>,
    pub outbox: Seq<DispatchView>,
    pub user_data: u64,
}

/// Opaque facade handle: owns one facade plus a context word duplicated
/// from the root handle at derivation. Facade handles neither own nor are
/// owned by the root handle or by each other; each is destroyed
/// independently by its paired destructor.
pub struct CFacade {
    pub facade: Facade,
    pub user_data: UserData,
}

impl View for CFacade {
    type V = CFacadeView;

    open spec fn view(&self) -> CFacadeView {
        CFacadeView {
            kind: self.facade.kind,
            registrations: self.facade.registrations@.map_values(|r: Registration| r@),
            outbox: self.facade.outbox@.map_values(|d: Dispatch| d@),
            user_data: self.user_data.0,
        }
    }
}

/// What every registration of a well-formed facade handle satisfies: its
/// filter is valid text, its context word is the facade's own, and it
/// listens for an event of the facade's domain.
pub open spec fn reg_wf(r: RegistrationView, kind: FacadeKind, user_data: u64) -> bool {
    &&& (r.filter is Some ==> text_ok(r.filter->0))
    &&& r.user_data == user_data
    &&& domain_of(r.event) == kind.domain
}

impl CFacade {
    /// The invariant the accessor establishes and the engines preserve.
    pub open spec fn wf(&self) -> bool {
        forall|i: int|
            0 <= i < self@.registrations.len() ==> reg_wf(
                #[trigger] self@.registrations[i],
                self@.kind,
                self@.user_data,
            )
    }

    /// Borrow the wrapped facade for the duration of one call.
    pub fn extract(&self) -> (r: &Facade)
        ensures
            *r == self.facade,
    {
        &self.facade
    }

    /// Borrow the context carrier.
    pub fn user_data(&self) -> (r: &UserData)
        ensures
            r.0 == self@.user_data,
    {
        &self.user_data
    }
}

/// Facade accessor engine: derive a domain-scoped handle from the root
/// handle. The lookup cannot fail internally but is wrapped as fallible to
/// keep the single error shape, so the status is always `Success`. Each
/// call yields an independent, freshly derived handle whose context word is
/// a duplicate of the root handle's.
pub fn get_facade(handle: &CProtocolHandler, kind: FacadeKind, facade_out: &mut Option<CFacade>) -> (
    s: Status)
    ensures
        s == Status::Success,
        (*final(facade_out)) is Some,
        ((*final(facade_out))->0)@ == (CFacadeView {
            kind,
            registrations: Seq::empty(),
            outbox: Seq::empty(),
            user_data: handle.user_data.0,
        }),
        ((*final(facade_out))->0).wf(),
{
    let f = CFacade {
        facade: Facade { kind, registrations: Vec::new(), outbox: Vec::new() },
        user_data: handle.user_data().duplicate(),
    };
    proof {
        assert(f@ =~~= (CFacadeView {
            kind,
            registrations: Seq::empty(),
            outbox: Seq::empty(),
            user_data: handle.user_data.0,
        }));
    }
    *facade_out = Some(f);
    wrap_status(Ok(()))
}

/// Publish engine: convert each borrowed filter value and the one borrowed
/// message to internal form, then hand them to the facade's send method,
/// which only accepts the message for asynchronous dispatch — the call
/// never waits for delivery. Exactly the malformed inputs fail, and a
/// failed call leaves the facade exactly as it was.
pub fn publish(facade: &mut CFacade, filters: &Vec<Vec<u8>>, message: &CMessage) -> (s: Status)
    requires
        domain_of(message.kind) == old(facade)@.kind.domain,
    ensures
        s == Status::Success <==> c_message_ok(message@) && filters_ok(byte_seqs(filters@)),
        s == Status::Success ==> final(facade)@ == (CFacadeView {
            outbox: old(facade)@.outbox.push(
                DispatchView { filters: byte_seqs(filters@), message: message@ },
            ),
            ..old(facade)@
        }),
        s != Status::Success ==> *final(facade) == *old(facade),
        old(facade).wf() ==> final(facade).wf(),
{
    let converted = match convert_message(message) {
        Ok(m) => m,
        Err(e) => {
            return wrap_status(Err(e));
        },
    };
    let mut texts: Vec<Text> = Vec::new();
    let n = filters.len();
    let mut i: usize = 0;
    proof {
        assert(text_seqs(texts@) =~= byte_seqs(filters@.take(0)));
    }
    while i < n
        invariant
            n == filters@.len(),
            i <= n,
            texts@.len() == i,
            text_seqs(texts@) == byte_seqs(filters@.take(i as int)),
            forall|j: int| 0 <= j < i ==> text_ok(#[trigger] byte_seqs(filters@)[j]),
        decreases n - i,
    {
        let t = match Text::from_bytes(clone_bytes(&filters[i])) {
            Ok(t) => t,
            Err(e) => {
                proof {
                    assert(byte_seqs(filters@)[i as int] == filters@[i as int]@);
                }
                return wrap_status(Err(e));
            },
        };
        let ghost prev = texts@;
        texts.push(t);
        proof {
            assert forall|j: int| 0 <= j < texts@.len() implies text_seqs(texts@)[j] == byte_seqs(
                filters@.take(i as int + 1),
            )[j] by {
                assert(text_seqs(texts@)[j] == texts@[j]@);
                assert(byte_seqs(filters@.take(i as int + 1))[j] == filters@.take(i as int + 1)[j]@);
                if j < i as int {
                    assert(texts@[j] == prev[j]);
                    assert(text_seqs(prev)[j] == byte_seqs(filters@.take(i as int))[j]);
                }
            }
            assert(text_seqs(texts@) =~= byte_seqs(filters@.take(i as int + 1)));
        }
        i = i + 1;
    }
    proof {
        assert(filters@.take(n as int) =~= filters@);
        assert(filters_ok(byte_seqs(filters@)));
    }
    let dispatch = Dispatch { filters: texts, message: converted };
    facade.facade.outbox.push(dispatch);
    proof {
        assert(facade@ =~~= (CFacadeView {
            outbox: old(facade)@.outbox.push(
                DispatchView { filters: byte_seqs(filters@), message: message@ },
            ),
            ..old(facade)@
        }));
    }
    wrap_status(Ok(()))
}

/// Subscribe engine: reject a null function pointer immediately with a
/// missing-callback failure, registering nothing; otherwise convert the
/// optional filter value and append a registration that pairs the function
/// address with a duplicate of the facade's context word. Exactly the calls
/// with a callback and a well-formed filter succeed, and a failed call
/// leaves the facade exactly as it was.
pub fn subscribe(
    facade: &mut CFacade,
    event: MessageKind,
    filter: &Option<Vec<u8>>,
    callback: Option<ForeignCallback>,
) -> (s: Status)
    requires
        domain_of(event) == old(facade)@.kind.domain,
    ensures
        s == Status::Success <==> callback is Some && opt_filter_ok(opt_bytes(*filter)),
        s == Status::Success ==> final(facade)@ == (CFacadeView {
            registrations: old(facade)@.registrations.push(
                RegistrationView {
                    event,
                    filter: opt_bytes(*filter),
                    callback: (callback->0).0,
                    user_data: old(facade)@.user_data,
                },
            ),
            ..old(facade)@
        }),
        s != Status::Success ==> *final(facade) == *old(facade),
        old(facade).wf() ==> final(facade).wf(),
{
    let cb = match callback {
        Some(cb) => cb,
        None => {
            return wrap_status(Err(BoundaryError::MissingCallback));
        },
    };
    let filter_text = match filter {
        None => None,
        Some(bytes) => match Text::from_bytes(clone_bytes(bytes)) {
            Ok(t) => Some(t),
            Err(e) => {
                return wrap_status(Err(e));
            },
        },
    };
    let user_data = facade.user_data.duplicate();
    let registration = Registration { event, filter: filter_text, callback: cb, user_data };
    facade.facade.registrations.push(registration);
    proof {
        assert(facade@ =~~= (CFacadeView {
            registrations: old(facade)@.registrations.push(
                RegistrationView {
                    event,
                    filter: opt_bytes(*filter),
                    callback: (callback->0).0,
                    user_data: old(facade)@.user_data,
                },
            ),
            ..old(facade)@
        }));
        if old(facade).wf() {
            assert forall|i: int| 0 <= i < facade@.registrations.len() implies reg_wf(
                #[trigger] facade@.registrations[i],
                facade@.kind,
                facade@.user_data,
            ) by {
                if i < old(facade)@.registrations.len() {
                    assert(reg_wf(
                        old(facade)@.registrations[i],
                        old(facade)@.kind,
                        old(facade)@.user_data,
                    ));
                }
            }
        }
    }
    wrap_status(Ok(()))
}

/// Mathematical content of one foreign invocation to perform.
#[verifier::ext_equal]
pub struct InvocationView {
    pub callback: u64,
    pub user_data: u64,
    pub payload: MessageView,
}

/// One foreign call owed for a delivered event: the registered function
/// address, a freshly heap-allocated boundary copy of the payload whose
/// ownership passes irrevocably to the foreign side, and the context word
/// registered with the callback.
pub struct Invocation {
    pub callback: ForeignCallback,
    pub user_data: UserData,
    pub payload: CMessage,
}

impl View for Invocation {
    type V = InvocationView;

    open spec fn view(&self) -> InvocationView {
        InvocationView {
            callback: self.callback.0,
            user_data: self.user_data.0,
            payload: self.payload@,
        }
    }
}

/// A registration listens for this event: same payload type, and a present
/// filter equals the event's filter key.
pub open spec fn reg_matches(r: RegistrationView, ev: MessageView) -> bool {
    r.event == ev.kind && (r.filter is Some ==> r.filter->0 == filter_key(ev))
}

/// The invocation a matching registration is owed for an event.
pub open spec fn invocation_for(r: RegistrationView, ev: MessageView) -> InvocationView {
    InvocationView { callback: r.callback, user_data: r.user_data, payload: ev }
}

/// The foreign calls owed for one event: one invocation per matching
/// registration, in registration order.
pub open spec fn delivery_plan(regs: Seq<RegistrationView>, ev: MessageView) -> Seq<InvocationView>
    decreases regs.len(),
{
    if regs.len() == 0 {
        Seq::empty()
    } else {
        let rest = delivery_plan(regs.drop_last(), ev);
        if reg_matches(regs.last(), ev) {
            rest.push(invocation_for(regs.last(), ev))
        } else {
            rest
        }
    }
}

/// The mathematical content of a list of invocations.
pub open spec fn inv_views(s: Seq<Invocation>) -> Seq<InvocationView> {
    s.map_values(|x: Invocation| x@)
}

/// Delivery engine: the body of the internal invocable built at subscribe
/// time, run once for one internal event of the facade's domain. For each
/// matching registration it heap-allocates exactly one fresh boundary copy
/// of the payload and pairs it with the registered function address and
/// context word. Performing the foreign calls is the unverified caller's
/// part; this function fixes exactly which calls are owed.
pub fn deliver(facade: &CFacade, event: &Message) -> (invs: Vec<Invocation>)
    ensures
        inv_views(invs@) == delivery_plan(facade@.registrations, event@),
{
    let mut invs: Vec<Invocation> = Vec::new();
    let n = facade.facade.registrations.len();
    let mut i: usize = 0;
    proof {
        assert(facade@.registrations.take(0) =~= Seq::<RegistrationView>::empty());
        assert(inv_views(invs@) =~= Seq::<InvocationView>::empty());
    }
    while i < n
        invariant
            n == facade.facade.registrations@.len(),
            n == facade@.registrations.len(),
            i <= n,
            inv_views(invs@) == delivery_plan(facade@.registrations.take(i as int), event@),
        decreases n - i,
    {
        let r = &facade.facade.registrations[i];
        let kind_hit = r.event == event.kind;
        let filter_hit = match &r.filter {
            None => true,
            Some(t) => bytes_eq(t.as_bytes(), filter_key_of(event).as_bytes()),
        };
        proof {
            assert(facade@.registrations[i as int] == facade.facade.registrations@[i as int]@);
            assert((kind_hit && filter_hit) == reg_matches(facade@.registrations[i as int], event@));
        }
        if kind_hit && filter_hit {
            let inv = Invocation {
                callback: r.callback,
                user_data: r.user_data.duplicate(),
                payload: message_to_c(event),
            };
            proof {
                assert(inv@ == invocation_for(facade@.registrations[i as int], event@));
            }
            invs.push(inv);
        }
        proof {
            let rv = facade@.registrations;
            assert(rv.take(i as int + 1).drop_last() =~= rv.take(i as int));
            assert(rv.take(i as int + 1).last() == rv[i as int]);
            assert(inv_views(invs@) =~= delivery_plan(rv.take(i as int + 1), event@));
        }
        i = i + 1;
    }
    proof {
        assert(facade@.registrations.take(n as int) =~= facade@.registrations);
    }
    invs
}

/// Destructor engine for a facade handle: reclaim and drop the facade and
/// every registration it holds. Destruction cannot fail; after it, no
/// further event for this facade is delivered, since its registrations are
/// gone with it.
pub fn drop_facade(facade: CFacade) -> (s: Status)
    ensures
        s == Status::Success,
{
    let _ = facade;
    Status::Success
}

/// Destructor engine for a delivered payload: reclaim and drop one boundary
/// record whose ownership was handed to the foreign side. Destruction
/// cannot fail, and touches nothing but the one record.
pub fn drop_message(message: CMessage) -> (s: Status)
    ensures
        s == Status::Success,
{
    let _ = message;
    Status::Success
}

/// Destructor engine for the root handle, as a free function of the flat
/// surface.
pub fn drop_protocol_handler(handle: CProtocolHandler) -> (s: Status)
    ensures
        s == Status::Success,
{
    handle.destroy();
    Status::Success
}

/// Law: delivering one event produces exactly one foreign invocation per
/// matching registration, and every invocation carries a payload whose
/// content equals the event's.
pub proof fn lemma_delivery_counts(regs: Seq<RegistrationView>, ev: MessageView)
    ensures
        delivery_plan(regs, ev).len() == matching_count(regs, ev),
        forall|k: int|
            0 <= k < delivery_plan(regs, ev).len() ==> (#[trigger] delivery_plan(regs, ev)[k]).payload
                == ev,
    decreases regs.len(),
{
    if regs.len() > 0 {
        lemma_delivery_counts(regs.drop_last(), ev);
    }
}

/// The number of registrations matching an event.
pub open spec fn matching_count(regs: Seq<RegistrationView>, ev: MessageView) -> int
    decreases regs.len(),
{
    if regs.len() == 0 {
        0
    } else {
        matching_count(regs.drop_last(), ev) + if reg_matches(regs.last(), ev) {
            1int
        } else {
            0int
        }
    }
}

/// Law: the context word is unchanged across deliveries. If every
/// registration carries the context word `user_data` — as every registration
/// of a well-formed facade does — then so does every invocation delivered
/// for any event.
pub proof fn lemma_context_unchanged(regs: Seq<RegistrationView>, ev: MessageView, user_data: u64)
    requires
        forall|i: int| 0 <= i < regs.len() ==> (#[trigger] regs[i]).user_data == user_data,
    ensures
        forall|k: int|
            0 <= k < delivery_plan(regs, ev).len() ==> (#[trigger] delivery_plan(regs, ev)[k]).user_data
                == user_data,
    decreases regs.len(),
{
    if regs.len() > 0 {
        assert(forall|i: int|
            0 <= i < regs.drop_last().len() ==> (#[trigger] regs.drop_last()[i]).user_data
                == user_data);
        lemma_context_unchanged(regs.drop_last(), ev, user_data);
    }
}

/// Law: a well-formed facade handle threads its own context word, unchanged,
/// into every invocation it ever delivers, for any event.
pub proof fn lemma_facade_context(facade: CFacade, ev: MessageView)
    requires
        facade.wf(),
    ensures
        forall|k: int|
            0 <= k < delivery_plan(facade@.registrations, ev).len() ==> (#[trigger] delivery_plan(
                facade@.registrations,
                ev,
            )[k]).user_data == facade@.user_data,
{
    lemma_context_unchanged(facade@.registrations, ev, facade@.user_data);
}

} // verus!
