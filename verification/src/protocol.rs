use vstd::prelude::*;

use crate::error::{ErrorStatus, NativeError};
use crate::http_parts::{check_pairs, check_status_code, pairs_error, pairs_view, HeaderData};
use crate::text::owned;
use vstd::string::StringSliceAdditionalSpecFns;

verus! {

/// What a custom-protocol handler answers.
#[derive(Clone, Debug)]
pub struct CustomProtocolResponse {
    /// HTTP status code; 200 when absent.
    pub status_code: Option<u16>,
    /// Extra response headers; entries without a value are left out.
    pub headers: Option<Vec<HeaderData>>,
    /// Response body bytes.
    pub body: Vec<u8>,
    /// MIME type; `application/octet-stream` when absent.
    pub mime_type: Option<String>,
}

/// A checked HTTP response: status, headers in the order they are sent, and body.
#[derive(Clone, Debug)]
pub struct ResponsePlan {
    pub status: u16,
    pub headers: Vec<(String, String)>,
    pub body: Vec<u8>,
}

pub open spec fn response_status(r: CustomProtocolResponse) -> u16 {
    match r.status_code {
        Some(s) => s,
        None => 200,
    }
}

pub open spec fn response_mime(r: CustomProtocolResponse) -> Seq<char> {
    match r.mime_type {
        Some(m) => m@,
        None => "application/octet-stream"@,
    }
}

/// The extra header pairs, in order, of the entries that carry a value.
pub open spec fn extra_pairs(hs: Seq<HeaderData>) -> Seq<(Seq<char>, Seq<char>)>
    decreases hs.len(),
{
    if hs.len() == 0 {
        Seq::empty()
    } else {
        let prev = extra_pairs(hs.drop_last());
        match hs.last().value {
            Some(v) => prev.push((hs.last().key@, v@)),
            None => prev,
        }
    }
}

/// All header pairs of a response: `Content-Type` first, then the extra headers.
pub open spec fn response_pairs(r: CustomProtocolResponse) -> Seq<(Seq<char>, Seq<char>)> {
    seq![("Content-Type"@, response_mime(r))] + match r.headers {
        Some(hs) => extra_pairs(hs@),
        None => Seq::empty(),
    }
}

/// Why a response cannot be built, if it cannot: the status is checked first, then
/// the headers in order.
pub open spec fn response_error(r: CustomProtocolResponse) -> Option<Seq<char>> {
    if !(100 <= response_status(r) <= 999) {
        Some("invalid status code"@)
    } else {
        pairs_error(response_pairs(r))
    }
}

pub open spec fn build_error_message(m: Seq<char>) -> Seq<char> {
    "Protocol response build error: "@ + m
}

/// Whether a built response, or the failure to build it, is what the handler's
/// answer calls for.
pub open spec fn response_agrees(resp: CustomProtocolResponse, r: Result<ResponsePlan, NativeError>) -> bool {
    match r {
        Ok(p) => response_error(resp) is None && p.status == response_status(resp) && pairs_view(
            p.headers@,
        ) == response_pairs(resp) && p.body@ == resp.body@,
        Err(e) => response_error(resp) matches Some(m) && e.message@ == build_error_message(m)
            && e.status == ErrorStatus::GenericFailure,
    }
}

proof fn lemma_extra_pairs_step(hs: Seq<HeaderData>, i: int)
    requires
        0 <= i < hs.len(),
    ensures
        extra_pairs(hs.take(i + 1)) == (match hs[i].value {
            Some(v) => extra_pairs(hs.take(i)).push((hs[i].key@, v@)),
            None => extra_pairs(hs.take(i)),
        }),
{
    assert(hs.take(i + 1).drop_last() =~= hs.take(i));
}

fn collect_extra_headers(hs: &Vec<HeaderData>, out: &mut Vec<(String, String)>)
    ensures
        pairs_view(final(out)@) == pairs_view(old(out)@) + extra_pairs(hs@),
{
    let n = hs.len();
    let mut i: usize = 0;
    let ghost start = pairs_view(out@);
    assert(hs@.take(0) =~= Seq::<HeaderData>::empty());
    assert(start + extra_pairs(hs@.take(0)) =~= start);
    while i < n
        invariant
            n == hs@.len(),
            i <= n,
            pairs_view(out@) == start + extra_pairs(hs@.take(i as int)),
        decreases n - i,
    {
        proof {
            lemma_extra_pairs_step(hs@, i as int);
        }
        match &hs[i].value {
            Some(v) => {
                let pair = (hs[i].key.clone(), v.clone());
                let ghost before = out@;
                out.push(pair);
                assert(pairs_view(out@) =~= pairs_view(before).push((pair.0@, pair.1@)));
                assert(pairs_view(out@) =~= start + extra_pairs(hs@.take(i + 1)));
            },
            None => {},
        }
        i = i + 1;
    }
    assert(hs@.take(n as int) =~= hs@);
}

/// Checks a handler's answer and turns it into a response: status 200 and MIME type
/// `application/octet-stream` by default, `Content-Type` before the extra headers.
/// A refused status or header makes the call fail with the builder's message.
pub fn build_wry_response(resp: CustomProtocolResponse) -> (r: Result<ResponsePlan, NativeError>)
    ensures
        response_agrees(resp, r),
        r matches Ok(p) ==> p.status == (match resp.status_code {
            Some(s) => s,
            None => 200u16,
        }),
        r matches Ok(p) ==> p.body@ == resp.body@,
{
    let status = match resp.status_code {
        Some(s) => s,
        None => 200,
    };
    let mime = match &resp.mime_type {
        Some(m) => m.clone(),
        None => owned("application/octet-stream"),
    };
    let mut headers: Vec<(String, String)> = Vec::new();
    headers.push((owned("Content-Type"), mime));
    assert(pairs_view(headers@) =~= seq![("Content-Type"@, response_mime(resp))]);
    match &resp.headers {
        Some(hs) => collect_extra_headers(hs, &mut headers),
        None => {
            assert(pairs_view(headers@) =~= response_pairs(resp));
        },
    }
    match check_status_code(status) {
        Err(m) => {
            let mut msg = owned("Protocol response build error: ");
            msg.append(m.as_str());
            return Err(NativeError::new(ErrorStatus::GenericFailure, msg));
        },
        Ok(()) => {},
    }
    match check_pairs(&headers) {
        Err(m) => {
            let mut msg = owned("Protocol response build error: ");
            msg.append(m.as_str());
            Err(NativeError::new(ErrorStatus::GenericFailure, msg))
        },
        Ok(()) => Ok(ResponsePlan { status, headers, body: resp.body }),
    }
}


/// A built response has exactly the status code the handler gave, whatever it is
/// (a redirect stays a redirect); 200 is used only when none is given.
pub proof fn law_response_status_is_the_given_code(resp: CustomProtocolResponse, p: ResponsePlan)
    requires
        response_agrees(resp, Ok(p)),
    ensures
        resp.status_code matches Some(s) ==> p.status == s,
        resp.status_code is None ==> p.status == 200,
        p.body@ == resp.body@,
        pairs_view(p.headers@).len() >= 1,
        pairs_view(p.headers@)[0] == ("Content-Type"@, match resp.mime_type {
            Some(m) => m@,
            None => "application/octet-stream"@,
        }),
{
}

/// Why a protocol handler could not be given a request.
#[derive(Clone, Copy, Debug, PartialEq, Eq, Structural)]
pub enum HandlerFailure {
    /// No handler is registered for the scheme.
    NotRegistered,
    /// The handler can no longer be reached.
    Unavailable,
    /// Calling the handler failed.
    InvocationFailed,
}

pub open spec fn handler_failure_message(f: HandlerFailure) -> Seq<char> {
    match f {
        HandlerFailure::NotRegistered => "Protocol handler is not registered"@,
        HandlerFailure::Unavailable => "Protocol handler is unavailable"@,
        HandlerFailure::InvocationFailed => "Protocol handler invocation failed"@,
    }
}

/// The UTF-8 bytes of a failure's message.
pub open spec fn handler_failure_body(f: HandlerFailure) -> Seq<u8> {
    match f {
        HandlerFailure::NotRegistered => "Protocol handler is not registered".spec_bytes(),
        HandlerFailure::Unavailable => "Protocol handler is unavailable".spec_bytes(),
        HandlerFailure::InvocationFailed => "Protocol handler invocation failed".spec_bytes(),
    }
}

/// The message that a request receives when its handler cannot be called.
pub fn handler_failure_text(f: HandlerFailure) -> (m: String)
    ensures
        m@ == handler_failure_message(f),
{
    match f {
        HandlerFailure::NotRegistered => owned("Protocol handler is not registered"),
        HandlerFailure::Unavailable => owned("Protocol handler is unavailable"),
        HandlerFailure::InvocationFailed => owned("Protocol handler invocation failed"),
    }
}

/// The answer to a request whose handler could not be called: status 500, plain
/// text, the message as body.
pub fn fallback_response(message: &str) -> (p: ResponsePlan)
    ensures
        p.status == 500,
        pairs_view(p.headers@) == seq![("Content-Type"@, "text/plain"@)],
        p.body@ == message.spec_bytes(),
{
    let mut headers: Vec<(String, String)> = Vec::new();
    headers.push((owned("Content-Type"), owned("text/plain")));
    assert(pairs_view(headers@) =~= seq![("Content-Type"@, "text/plain"@)]);
    ResponsePlan { status: 500, headers, body: message.as_bytes_vec() }
}

/// One step of a request counter: the id it hands out and its next value.
pub open spec fn counter_step(c: u64) -> (u64, u64) {
    (c, (c + 1) as u64)
}

/// The ids that `k` successive draws from a counter at `n` hand out, in order, and
/// the counter's value afterwards.
pub open spec fn counter_run(n: u64, k: nat) -> (Seq<u64>, u64)
    decreases k,
{
    if k == 0 {
        (Seq::empty(), n)
    } else {
        let (ids, c) = counter_run(n, (k - 1) as nat);
        (ids.push(counter_step(c).0), counter_step(c).1)
    }
}

/// Hands out the current value of a request counter and advances it.
pub fn next_protocol_id(counter: &mut u64) -> (id: u64)
    requires
        *old(counter) < u64::MAX,
    ensures
        id == *old(counter),
        *final(counter) == *old(counter) + 1,
        (id, *final(counter)) == counter_step(*old(counter)),
{
    let id = *counter;
    *counter = *counter + 1;
    id
}

/// `k` successive draws from one counter at `n` (with room for them) hand out
/// `n`, `n + 1`, ..., `n + k - 1`, each larger than the one before and so all
/// distinct, and leave the counter at `n + k`.
pub proof fn law_successive_protocol_ids(n: u64, k: nat)
    requires
        n + k <= u64::MAX,
    ensures
        counter_run(n, k).0 == Seq::new(k, |i: int| (n + i) as u64),
        counter_run(n, k).1 == n + k,
        forall|i: int, j: int| 0 <= i < j < k ==> counter_run(n, k).0[i] < counter_run(n, k).0[j],
    decreases k,
{
    if k > 0 {
        law_successive_protocol_ids(n, (k - 1) as nat);
        assert(counter_run(n, k).0 =~= Seq::new(k, |i: int| (n + i) as u64));
    }
}

/// One registered scheme with its handler and its requests awaiting an answer.
pub struct RegisteredProtocol<H, R> {
    scheme: String,
    handler: H,
    pending: Vec<(u64, R)>,
}

/// The custom protocols of a window. All of them draw request ids from one counter,
/// so an id names at most one awaiting request across all of them.
pub struct ProtocolRegistry<H, R> {
    protocols: Vec<RegisteredProtocol<H, R>>,
    next_id: u64,
}

/// The mathematical form of a protocol registry.
pub struct ProtocolState<H, R> {
    pub schemes: Seq<Seq<char>>,
    pub handlers: Seq<H>,
    /// For each protocol, its awaiting requests: id and responder, in arrival order.
    pub pending: Seq<Seq<(u64, R)>>,
    pub next_id: u64,
}

impl<H, R> ProtocolState<H, R> {
    pub open spec fn count(self) -> nat {
        self.pending.len()
    }

    pub open spec fn valid_slot(self, i: int, k: int) -> bool {
        0 <= i < self.pending.len() && 0 <= k < self.pending[i].len()
    }

    /// The registry's invariant: ids below the counter, and no id twice.
    pub open spec fn wf(self) -> bool {
        &&& self.schemes.len() == self.pending.len()
        &&& self.handlers.len() == self.pending.len()
        &&& forall|i: int, k: int| #[trigger]
            self.valid_slot(i, k) ==> self.pending[i][k].0 < self.next_id
        &&& forall|i: int, k: int, j: int, l: int|
            #![trigger self.pending[i][k], self.pending[j][l]]
            self.valid_slot(i, k) && self.valid_slot(j, l) && (i != j || k != l)
                ==> self.pending[i][k].0 != self.pending[j][l].0
    }

    pub open spec fn is_pending(self, id: u64) -> bool {
        exists|i: int, k: int| #[trigger] self.valid_slot(i, k) && self.pending[i][k].0 == id
    }

    /// Where an awaiting request is kept: protocol and position.
    pub open spec fn locate(self, id: u64) -> Option<(int, int)> {
        if self.is_pending(id) {
            Some(choose|a: int, b: int| self.valid_slot(a, b) && self.pending[a][b].0 == id)
        } else {
            None
        }
    }

    /// This state with protocol `i`'s awaiting requests replaced.
    pub open spec fn with_pending(self, i: int, p: Seq<(u64, R)>) -> Self {
        ProtocolState { pending: self.pending.update(i, p), ..self }
    }
}

impl<H, R> View for ProtocolRegistry<H, R> {
    type V = ProtocolState<H, R>;

    closed spec fn view(&self) -> ProtocolState<H, R> {
        ProtocolState {
            schemes: self.protocols@.map_values(|p: RegisteredProtocol<H, R>| p.scheme@),
            handlers: self.protocols@.map_values(|p: RegisteredProtocol<H, R>| p.handler),
            pending: self.protocols@.map_values(|p: RegisteredProtocol<H, R>| p.pending@),
            next_id: self.next_id,
        }
    }
}

impl<H, R> ProtocolRegistry<H, R> {
    /// A registry with no protocol; ids start at 0.
    pub fn new() -> (r: Self)
        ensures
            r@.wf(),
            r@.count() == 0,
            r@.next_id == 0,
    {
        let r = ProtocolRegistry { protocols: Vec::new(), next_id: 0 };
        assert(r@.pending =~= Seq::<Seq<(u64, R)>>::empty());
        r
    }

    /// The number of registered protocols.
    pub fn len(&self) -> (n: usize)
        ensures
            n == self@.count(),
    {
        self.protocols.len()
    }

    /// The id the next request will get.
    pub fn next_request_id(&self) -> (n: u64)
        ensures
            n == self@.next_id,
    {
        self.next_id
    }

    /// The scheme of protocol `i`.
    pub fn scheme(&self, i: usize) -> (s: &str)
        requires
            i < self@.count(),
        ensures
            s@ == self@.schemes[i as int],
    {
        self.protocols[i].scheme.as_str()
    }

    /// The handler of protocol `i`.
    pub fn handler(&self, i: usize) -> (h: &H)
        requires
            i < self@.count(),
        ensures
            *h == self@.handlers[i as int],
    {
        &self.protocols[i].handler
    }

    /// Adds a protocol with no awaiting request; it shares the registry's id counter.
    pub fn register_protocol_raw(&mut self, name: String, handler: H)
        requires
            old(self)@.wf(),
        ensures
            final(self)@.wf(),
            final(self)@.schemes == old(self)@.schemes.push(name@),
            final(self)@.handlers == old(self)@.handlers.push(handler),
            final(self)@.pending == old(self)@.pending.push(Seq::empty()),
            final(self)@.next_id == old(self)@.next_id,
    {
        let ghost pre = self@;
        self.protocols.push(RegisteredProtocol { scheme: name, handler, pending: Vec::new() });
        proof {
            assert(self@.schemes =~= pre.schemes.push(name@));
            assert(self@.handlers =~= pre.handlers.push(handler));
            assert(self@.pending =~= pre.pending.push(Seq::empty()));
            assert forall|i: int, k: int| #[trigger] self@.valid_slot(i, k) implies pre.valid_slot(
                i,
                k,
            ) && self@.pending[i][k] == pre.pending[i][k] by {}
        }
    }

    /// Starts a request on protocol `i`: it gets the next id and waits with its responder.
    pub fn begin_request(&mut self, i: usize, responder: R) -> (id: u64)
        requires
            old(self)@.wf(),
            i < old(self)@.count(),
            old(self)@.next_id < u64::MAX,
        ensures
            final(self)@.wf(),
            id == old(self)@.next_id,
            !old(self)@.is_pending(id),
            final(self)@ == old(self)@.begun(i as int, responder),
    {
        let ghost pre = self@;
        let id = next_protocol_id(&mut self.next_id);
        let mut p = self.protocols.remove(i);
        p.pending.push((id, responder));
        self.protocols.insert(i, p);
        proof {
            let post = pre.begun(i as int, responder);
            assert(self@.schemes =~= post.schemes);
            assert(self@.handlers =~= post.handlers);
            assert(self@.pending =~= post.pending);
            assert forall|j: int, l: int| #[trigger]
                pre.valid_slot(j, l) implies pre.pending[j][l].0 != id by {}
            assert forall|a: int, b: int| #[trigger] self@.valid_slot(a, b) implies (a == i && b
                == pre.pending[i as int].len()) || (pre.valid_slot(a, b) && self@.pending[a][b]
                == pre.pending[a][b]) by {}
        }
        id
    }
}

impl<H, R> ProtocolState<H, R> {
    /// The state after a request arrives on protocol `i` with `responder`.
    pub open spec fn begun(self, i: int, responder: R) -> Self {
        self.with_pending(i, self.pending[i].push((self.next_id, responder))).with_next_id(
            (self.next_id + 1) as u64,
        )
    }

    /// The state after the awaiting request `id` is answered (unchanged if none waits).
    pub open spec fn completed(self, id: u64) -> Self {
        match self.locate(id) {
            Some(p) => self.with_pending(p.0, self.pending[p.0].remove(p.1)),
            None => self,
        }
    }

    /// This state with another counter value.
    pub open spec fn with_next_id(self, n: u64) -> Self {
        ProtocolState { next_id: n, ..self }
    }
}


proof fn lemma_remove_keeps_wf<H, R>(s: ProtocolState<H, R>, i: int, k: int)
    requires
        s.wf(),
        s.valid_slot(i, k),
    ensures
        s.with_pending(i, s.pending[i].remove(k)).wf(),
{
    let t = s.with_pending(i, s.pending[i].remove(k));
    assert forall|a: int, b: int| #[trigger] t.valid_slot(a, b) implies (a != i && s.valid_slot(a, b)
        && t.pending[a][b] == s.pending[a][b]) || (a == i && b < k && s.valid_slot(a, b)
        && t.pending[a][b] == s.pending[a][b]) || (a == i && b >= k && s.valid_slot(a, b + 1)
        && t.pending[a][b] == s.pending[a][b + 1]) by {}
    assert forall|a: int, b: int, c: int, d: int|
        #![trigger t.pending[a][b], t.pending[c][d]]
        t.valid_slot(a, b) && t.valid_slot(c, d) && (a != c || b != d) implies t.pending[a][b].0
        != t.pending[c][d].0 by {
        assert(t.valid_slot(a, b));
        assert(t.valid_slot(c, d));
        let b2 = if a == i && b >= k { b + 1 } else { b };
        let d2 = if c == i && d >= k { d + 1 } else { d };
        assert(s.pending[a][b2] == t.pending[a][b]);
        assert(s.pending[c][d2] == t.pending[c][d]);
    }
}

proof fn lemma_locate_is<H, R>(s: ProtocolState<H, R>, id: u64, i: int, k: int)
    requires
        s.wf(),
        s.valid_slot(i, k),
        s.pending[i][k].0 == id,
    ensures
        s.locate(id) == Some((i, k)),
{
    assert(s.valid_slot(i, k) && s.pending[i][k].0 == id);
    assert(s.is_pending(id));
    let (a, b) = choose|a: int, b: int| s.valid_slot(a, b) && s.pending[a][b].0 == id;
    assert(s.valid_slot(a, b) && s.pending[a][b].0 == id);
    assert(s.pending[a][b] == s.pending[a][b] && s.pending[i][k] == s.pending[i][k]);
}

impl<H, R> ProtocolRegistry<H, R> {
    /// Takes the awaiting request `id` out of protocol `i`, if it waits there.
    pub fn take_pending(&mut self, i: usize, id: u64) -> (r: Option<R>)
        requires
            old(self)@.wf(),
            i < old(self)@.count(),
        ensures
            final(self)@.wf(),
            match old(self)@.locate(id) {
                Some(p) if p.0 == i => r == Some(old(self)@.pending[p.0][p.1].1) && final(self)@
                    == old(self)@.with_pending(p.0, old(self)@.pending[p.0].remove(p.1)),
                _ => r is None && final(self)@ == old(self)@,
            },
    {
        let ghost pre = self@;
        let n = self.protocols[i].pending.len();
        let mut k: usize = 0;
        while k < n
            invariant
                self@ == pre,
                old(self)@ == pre,
                pre.wf(),
                i < pre.count(),
                n == pre.pending[i as int].len(),
                k <= n,
                forall|b: int| 0 <= b < k ==> pre.pending[i as int][b].0 != id,
            decreases n - k,
        {
            if self.protocols[i].pending[k].0 == id {
                proof {
                    lemma_locate_is(pre, id, i as int, k as int);
                    lemma_remove_keeps_wf(pre, i as int, k as int);
                }
                let mut p = self.protocols.remove(i);
                let (_, responder) = p.pending.remove(k);
                self.protocols.insert(i, p);
                proof {
                    let post = pre.with_pending(i as int, pre.pending[i as int].remove(k as int));
                    assert(self@.schemes =~= post.schemes);
                    assert(self@.handlers =~= post.handlers);
                    assert(self@.pending =~= post.pending);
                    assert(responder == pre.pending[i as int][k as int].1);
                    assert(pre.locate(id) == Some((i as int, k as int)));
                    assert(self@ == post);
                }
                return Some(responder);
            }
            k = k + 1;
        }
        proof {
            if let Some(p) = pre.locate(id) {
                if p.0 == i {
                    assert(pre.valid_slot(p.0, p.1) && pre.pending[p.0][p.1].0 == id);
                }
            }
        }
        None
    }

    /// Answers the awaiting request `id` with the handler's response. An id that no
    /// request holds (already answered, or unknown) is ignored. The request stops
    /// waiting even when the response is refused.
    pub fn complete_protocol(&mut self, id: u64, response: CustomProtocolResponse) -> (r: Result<
        Option<(R, ResponsePlan)>,
        NativeError,
    >)
        requires
            old(self)@.wf(),
        ensures
            final(self)@.wf(),
            match old(self)@.locate(id) {
                None => r matches Ok(None) && final(self)@ == old(self)@,
                Some(p) => final(self)@ == old(self)@.with_pending(
                    p.0,
                    old(self)@.pending[p.0].remove(p.1),
                ) && match r {
                    Ok(Some((responder, plan))) => responder == old(self)@.pending[p.0][p.1].1
                        && response_agrees(response, Ok(plan)),
                    Ok(None) => false,
                    Err(e) => response_agrees(response, Err(e)),
                },
            },
    {
        let ghost pre = self@;
        let n = self.protocols.len();
        let mut i: usize = 0;
        while i < n
            invariant
                self@ == pre,
                old(self)@ == pre,
                pre.wf(),
                n == pre.count(),
                i <= n,
                forall|j: int, b: int| 0 <= j < i && #[trigger] pre.valid_slot(j, b) ==> pre.pending[j][b].0
                    != id,
            decreases n - i,
        {
            match self.take_pending(i, id) {
                Some(responder) => {
                    return match build_wry_response(response) {
                        Ok(plan) => Ok(Some((responder, plan))),
                        Err(e) => Err(e),
                    };
                },
                None => {
                    proof {
                        assert forall|b: int| #[trigger] pre.valid_slot(i as int, b) implies pre.pending[
                            i as int][b].0 != id by {
                            if pre.pending[i as int][b].0 == id {
                                lemma_locate_is(pre, id, i as int, b);
                            }
                        }
                    }
                },
            }
            i = i + 1;
        }
        proof {
            if pre.is_pending(id) {
                let (a, b) = choose|a: int, b: int| #[trigger] pre.valid_slot(a, b) && pre.pending[a][b].0 == id;
                assert(pre.valid_slot(a, b));
            }
        }
        Ok(None)
    }
}


impl<H, R> ProtocolRegistry<H, R> {
    /// A request on protocol `i` whose handler could not be called: it stops waiting
    /// and its responder is handed back with the fallback answer (status 500, the
    /// failure's message as plain text). Nothing happens if it no longer waits.
    pub fn fail_request(&mut self, i: usize, id: u64, failure: HandlerFailure) -> (r: Option<
        (R, ResponsePlan),
    >)
        requires
            old(self)@.wf(),
            i < old(self)@.count(),
        ensures
            final(self)@.wf(),
            match old(self)@.locate(id) {
                Some(p) if p.0 == i => final(self)@ == old(self)@.completed(id) && match r {
                    Some((responder, plan)) => responder == old(self)@.pending[p.0][p.1].1
                        && plan.status == 500 && pairs_view(plan.headers@) == seq![
                        ("Content-Type"@, "text/plain"@),
                    ] && plan.body@ == handler_failure_body(failure),
                    None => false,
                },
                _ => r is None && final(self)@ == old(self)@,
            },
    {
        match self.take_pending(i, id) {
            Some(responder) => {
                let message = handler_failure_text(failure);
                let plan = fallback_response(message.as_str());
                Some((responder, plan))
            },
            None => None,
        }
    }
}

/// Ids handed out one after another are different, and a newly handed-out id names
/// no request that is already waiting, so requests on protocols that share a counter
/// never share an id.
pub proof fn law_request_ids_are_fresh<H, R>(s: ProtocolState<H, R>, i: int, r1: R)
    requires
        s.wf(),
        0 <= i < s.count(),
        s.next_id < u64::MAX,
    ensures
        s.begun(i, r1).wf(),
        s.begun(i, r1).next_id != s.next_id,
        !s.is_pending(s.next_id),
        !s.begun(i, r1).is_pending(s.begun(i, r1).next_id),
        s.begun(i, r1).locate(s.next_id) == Some((i, s.pending[i].len() as int)),
{
    lemma_begun_wf(s, i, r1);
    let t = s.begun(i, r1);
    assert(t.valid_slot(i, s.pending[i].len() as int));
    lemma_locate_is(t, s.next_id, i, s.pending[i].len() as int);
    if s.is_pending(s.next_id) {
        let (a, b) = choose|a: int, b: int| s.valid_slot(a, b) && s.pending[a][b].0 == s.next_id;
        assert(s.valid_slot(a, b));
    }
    if t.is_pending(t.next_id) {
        let (a, b) = choose|a: int, b: int| t.valid_slot(a, b) && t.pending[a][b].0 == t.next_id;
        assert(t.valid_slot(a, b));
    }
}

proof fn lemma_begun_wf<H, R>(s: ProtocolState<H, R>, i: int, r: R)
    requires
        s.wf(),
        0 <= i < s.count(),
        s.next_id < u64::MAX,
    ensures
        s.begun(i, r).wf(),
{
    let t = s.begun(i, r);
    assert forall|a: int, b: int| #[trigger] t.valid_slot(a, b) implies (a == i && b
        == s.pending[i].len() && t.pending[a][b].0 == s.next_id) || (s.valid_slot(a, b)
        && t.pending[a][b] == s.pending[a][b]) by {}
    assert forall|a: int, b: int, c: int, d: int|
        #![trigger t.pending[a][b], t.pending[c][d]]
        t.valid_slot(a, b) && t.valid_slot(c, d) && (a != c || b != d) implies t.pending[a][b].0
        != t.pending[c][d].0 by {
        assert(t.valid_slot(a, b));
        assert(t.valid_slot(c, d));
        if !(a == i && b == s.pending[i].len()) && !(c == i && d == s.pending[i].len()) {
            assert(s.pending[a][b] == t.pending[a][b]);
            assert(s.pending[c][d] == t.pending[c][d]);
        } else if !(a == i && b == s.pending[i].len()) {
            assert(s.valid_slot(a, b));
        } else {
            assert(s.valid_slot(c, d));
        }
    }
}

/// Answering a request undoes its arrival: every protocol's awaiting requests are as
/// before it came, and only the counter has moved on.
pub proof fn law_answer_undoes_arrival<H, R>(s: ProtocolState<H, R>, i: int, r: R)
    requires
        s.wf(),
        0 <= i < s.count(),
        s.next_id < u64::MAX,
    ensures
        s.begun(i, r).completed(s.next_id) == s.with_next_id((s.next_id + 1) as u64),
{
    law_request_ids_are_fresh(s, i, r);
    let t = s.begun(i, r);
    let k = s.pending[i].len() as int;
    assert(t.pending[i].remove(k) =~= s.pending[i]);
    assert(t.pending.update(i, t.pending[i].remove(k)) =~= s.pending);
}

/// Once a request is answered it no longer waits: answering the same id again finds
/// nothing and changes nothing.
pub proof fn law_completion_happens_once<H, R>(s: ProtocolState<H, R>, id: u64)
    requires
        s.wf(),
    ensures
        s.completed(id).wf(),
        s.completed(id).locate(id) is None,
        s.completed(id).completed(id) == s.completed(id),
{
    let t = s.completed(id);
    match s.locate(id) {
        Some(p) => {
            let (i, k) = choose|a: int, b: int| s.valid_slot(a, b) && s.pending[a][b].0 == id;
            assert(s.valid_slot(i, k));
            lemma_locate_is(s, id, i, k);
            lemma_remove_keeps_wf(s, i, k);
            if t.is_pending(id) {
                let (a, b) = choose|a: int, b: int| t.valid_slot(a, b) && t.pending[a][b].0 == id;
                assert(t.valid_slot(a, b));
                let b2 = if a == i && b >= k { b + 1 } else { b };
                assert(s.valid_slot(a, b2));
                assert(s.pending[a][b2] == t.pending[a][b]);
                assert(s.pending[i][k] == s.pending[i][k]);
            }
        },
        None => {},
    }
}

} // verus!
