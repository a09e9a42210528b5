//! The guest-side dispatcher for the keychain example interface.
//!
//! The keychain is a callback interface with two methods in declaration
//! order: `get(key) -> optional string` at selector `1` and
//! `put(key, value) -> void` at selector `2`. Selector `0` is reserved for
//! release. The dispatcher resolves the handle, decodes the arguments,
//! invokes the user's implementation, and encodes the outcome; no error ever
//! crosses the boundary in any form other than a well-formed result buffer.
//!
//! Releasing a handle that is already released is a no-op returning the
//! empty success buffer: release consists of removing the map entry, and
//! removing an absent entry removes nothing.

use crate::codec::{
    enc_string, enc_opt_string, opt_string_fits, read_string, read_string_at, string_fits,
    string_len_fits, view_opt_string, write_opt_string, write_string,
};
use crate::handle_map::{insertion, HandleMap};
use crate::registry::{ForeignCallback, IDX_CALLBACK_FREE};
use vstd::prelude::*;

verus! {

/// Selector of the keychain `get` method.
pub const KEYCHAIN_GET_SELECTOR: u32 = 1;

/// Selector of the keychain `put` method.
pub const KEYCHAIN_PUT_SELECTOR: u32 = 2;

/// Status byte of a successful response.
pub const STATUS_OK: u8 = 0;

/// Status byte of a response carrying a user-declared error.
pub const STATUS_USER_ERROR: u8 = 1;

/// Status byte of a response reporting a protocol error.
pub const STATUS_PROTOCOL_ERROR: u8 = 2;

/// The keychain callback interface. Native code calls it; the implementation
/// lives with the user on the foreign side.
///
/// A method returns `Err` with the user's error payload where the
/// implementation raised; the dispatcher catches it at the boundary and
/// translates it into a status-`1` response.
pub trait Keychain {
    /// Looks up the value stored under a key.
    fn get(&self, key: String) -> Result<Option<String>, String>;

    /// Stores a value under a key.
    fn put(&self, key: String, value: String) -> Result<(), String>;
}

// ---------------------------------------------------------------------------
// Response shapes.
// ---------------------------------------------------------------------------

/// The empty response of a release.
pub open spec fn release_response() -> Seq<u8> {
    Seq::<u8>::empty()
}

/// A successful response with no payload.
pub open spec fn ok_unit_response() -> Seq<u8> {
    seq![STATUS_OK]
}

/// A successful response carrying an optional string.
pub open spec fn ok_opt_string_response(v: Option<Seq<char>>) -> Seq<u8> {
    seq![STATUS_OK] + enc_opt_string(v)
}

/// A response carrying a user-declared error payload.
pub open spec fn user_error_response(e: Seq<char>) -> Seq<u8> {
    seq![STATUS_USER_ERROR] + enc_string(e)
}

/// A response reporting a protocol error: the status byte, then the
/// diagnostic as plain UTF-8.
pub open spec fn protocol_error_response(msg: Seq<char>) -> Seq<u8> {
    seq![STATUS_PROTOCOL_ERROR] + vstd::utf8::encode_utf8(msg)
}

/// Diagnostic for a call on a handle that is not live.
pub open spec fn stale_handle_message() -> Seq<char> {
    "stale handle"@
}

/// Diagnostic for a selector no method is assigned to.
pub open spec fn unknown_selector_message() -> Seq<char> {
    "unknown method selector"@
}

/// Diagnostic for an argument buffer that does not decode as the selected
/// method's parameter list.
pub open spec fn malformed_arguments_message() -> Seq<char> {
    "malformed argument buffer"@
}

/// Diagnostic for a user value too long for the wire format.
pub open spec fn oversize_value_message() -> Seq<char> {
    "value does not fit the wire format"@
}

// ---------------------------------------------------------------------------
// The dispatch relation.
// ---------------------------------------------------------------------------

/// A well-formed argument buffer for `get`: exactly one string.
pub open spec fn get_args_ok(args: Seq<u8>) -> bool {
    read_string_at(args, 0) matches Ok((key, end)) && end == args.len()
}

/// A well-formed argument buffer for `put`: exactly two strings.
pub open spec fn put_args_ok(args: Seq<u8>) -> bool {
    read_string_at(args, 0) matches Ok((key, mid)) && read_string_at(args, mid) matches Ok(
        (value, end),
    ) && end == args.len()
}

/// Every response a method returning an optional string can produce: the
/// user's value where it fits the wire format, the user's error payload, or
/// the oversize diagnostic.
pub open spec fn opt_string_method_outcome(resp: Seq<u8>) -> bool {
    ||| (exists|v: Option<Seq<char>>|
        opt_string_fits(v) && resp == ok_opt_string_response(v))
    ||| (exists|e: Seq<char>| string_len_fits(e) && resp == user_error_response(e))
    ||| resp == protocol_error_response(oversize_value_message())
}

/// Every response a method returning nothing can produce.
pub open spec fn unit_method_outcome(resp: Seq<u8>) -> bool {
    ||| resp == ok_unit_response()
    ||| (exists|e: Seq<char>| string_len_fits(e) && resp == user_error_response(e))
    ||| resp == protocol_error_response(oversize_value_message())
}

/// What one dispatch does: how the map of live objects moves and which
/// response leaves. Release removes the entry (removing an absent entry is a
/// no-op) and returns the empty buffer; every other selector leaves the map
/// as it is and returns a status-prefixed buffer that names the outcome.
pub open spec fn dispatch_transition<T>(
    pre: Map<u64, T>,
    handle: u64,
    selector: u32,
    args: Seq<u8>,
    post: Map<u64, T>,
    resp: Seq<u8>,
) -> bool {
    if selector == IDX_CALLBACK_FREE {
        &&& post == pre.remove(handle)
        &&& resp == release_response()
    } else {
        &&& post == pre
        &&& if !pre.contains_key(handle) {
            resp == protocol_error_response(stale_handle_message())
        } else if selector == KEYCHAIN_GET_SELECTOR {
            if get_args_ok(args) {
                opt_string_method_outcome(resp)
            } else {
                resp == protocol_error_response(malformed_arguments_message())
            }
        } else if selector == KEYCHAIN_PUT_SELECTOR {
            if put_args_ok(args) {
                unit_method_outcome(resp)
            } else {
                resp == protocol_error_response(malformed_arguments_message())
            }
        } else {
            resp == protocol_error_response(unknown_selector_message())
        }
    }
}

// ---------------------------------------------------------------------------
// Response builders.
// ---------------------------------------------------------------------------

/// Builds a protocol-error response around a diagnostic.
fn make_protocol_error(msg: &str) -> (resp: Vec<u8>)
    ensures
        resp@ == protocol_error_response(msg@),
{
    let mut resp = Vec::new();
    resp.push(STATUS_PROTOCOL_ERROR);
    resp.extend_from_slice(msg.as_bytes());
    proof {
        assert(resp@ =~= protocol_error_response(msg@));
    }
    resp
}

/// Builds a user-error response around the user's payload.
fn make_user_error(e: &str) -> (resp: Vec<u8>)
    requires
        string_len_fits(e@),
    ensures
        resp@ == user_error_response(e@),
{
    let mut resp = Vec::new();
    resp.push(STATUS_USER_ERROR);
    write_string(&mut resp, e);
    proof {
        assert(resp@ =~= user_error_response(e@));
    }
    resp
}

/// Builds the successful empty-payload response.
fn make_ok_unit() -> (resp: Vec<u8>)
    ensures
        resp@ == ok_unit_response(),
{
    let mut resp = Vec::new();
    resp.push(STATUS_OK);
    proof {
        assert(resp@ =~= ok_unit_response());
    }
    resp
}

/// Builds the successful response carrying an optional string.
fn make_ok_opt_string(v: &Option<String>) -> (resp: Vec<u8>)
    requires
        opt_string_fits(view_opt_string(*v)),
    ensures
        resp@ == ok_opt_string_response(view_opt_string(*v)),
{
    let mut resp = Vec::new();
    resp.push(STATUS_OK);
    write_opt_string(&mut resp, v);
    proof {
        assert(resp@ =~= ok_opt_string_response(view_opt_string(*v)));
    }
    resp
}

// ---------------------------------------------------------------------------
// The dispatcher.
// ---------------------------------------------------------------------------

/// The guest-side entry point of the keychain interface: owns the handle
/// map and turns `(handle, selector, argument buffer)` triples into result
/// buffers.
pub struct KeychainDispatcher<K> {
    map: HandleMap<K>,
}

impl<K: Keychain> KeychainDispatcher<K> {
    /// The live guest objects, by handle.
    pub closed spec fn objects(&self) -> Map<u64, K> {
        self.map.entries()
    }

    /// The next handle to issue.
    pub closed spec fn next(&self) -> u64 {
        self.map.next()
    }

    /// The handle map is well formed.
    pub closed spec fn wf(&self) -> bool {
        self.map.wf()
    }

    /// A dispatcher with no live objects.
    pub fn new() -> (d: Self)
        ensures
            d.wf(),
            d.objects() == Map::<u64, K>::empty(),
            d.next() == 1,
    {
        KeychainDispatcher { map: HandleMap::new() }
    }

    /// Registers a guest object on entry from user code and returns the
    /// fresh handle that will name it across the boundary.
    pub fn register(&mut self, object: K) -> (handle: u64)
        requires
            old(self).wf(),
            old(self).next() < u64::MAX,
        ensures
            final(self).wf(),
            handle == old(self).next(),
            final(self).next() == old(self).next() + 1,
            insertion(old(self).objects(), final(self).objects(), handle, object),
    {
        self.map.insert(object)
    }

    /// The number of live objects.
    pub fn live_objects(&self) -> (n: usize)
        ensures
            n == self.objects().len(),
    {
        self.map.len()
    }

    /// Handles one invocation arriving over the trampoline: consumes the
    /// argument buffer and produces a fresh result buffer.
    pub fn dispatch(&mut self, handle: u64, selector: u32, args: Vec<u8>) -> (resp: Vec<u8>)
        requires
            old(self).wf(),
        ensures
            final(self).wf(),
            final(self).next() == old(self).next(),
            dispatch_transition(
                old(self).objects(),
                handle,
                selector,
                args@,
                final(self).objects(),
                resp@,
            ),
    {
        if selector == IDX_CALLBACK_FREE {
            // Drops the object: the map held the sole strong reference.
            let _object = self.map.remove(handle);
            return Vec::new();
        }
        let object = match self.map.get(handle) {
            Some(object) => object,
            None => {
                return make_protocol_error("stale handle");
            },
        };
        if selector == KEYCHAIN_GET_SELECTOR {
            let key = match read_string(&args, 0) {
                Ok((key, end)) => {
                    if end != args.len() {
                        return make_protocol_error("malformed argument buffer");
                    }
                    key
                },
                Err(_) => {
                    return make_protocol_error("malformed argument buffer");
                },
            };
            match object.get(key) {
                Ok(value) => {
                    let fits = match &value {
                        Some(s) => string_fits(s.as_str()),
                        None => true,
                    };
                    if fits {
                        let resp = make_ok_opt_string(&value);
                        proof {
                            assert(opt_string_fits(view_opt_string(value)) && resp@
                                == ok_opt_string_response(view_opt_string(value)));
                        }
                        resp
                    } else {
                        make_protocol_error("value does not fit the wire format")
                    }
                },
                Err(e) => {
                    if string_fits(e.as_str()) {
                        let resp = make_user_error(e.as_str());
                        proof {
                            assert(string_len_fits(e@) && resp@ == user_error_response(e@));
                        }
                        resp
                    } else {
                        make_protocol_error("value does not fit the wire format")
                    }
                },
            }
        } else if selector == KEYCHAIN_PUT_SELECTOR {
            let (key, value) = match read_string(&args, 0) {
                Ok((key, mid)) => match read_string(&args, mid) {
                    Ok((value, end)) => {
                        if end != args.len() {
                            return make_protocol_error("malformed argument buffer");
                        }
                        (key, value)
                    },
                    Err(_) => {
                        return make_protocol_error("malformed argument buffer");
                    },
                },
                Err(_) => {
                    return make_protocol_error("malformed argument buffer");
                },
            };
            match object.put(key, value) {
                Ok(()) => make_ok_unit(),
                Err(e) => {
                    if string_fits(e.as_str()) {
                        let resp = make_user_error(e.as_str());
                        proof {
                            assert(string_len_fits(e@) && resp@ == user_error_response(e@));
                        }
                        resp
                    } else {
                        make_protocol_error("value does not fit the wire format")
                    }
                },
            }
        } else {
            make_protocol_error("unknown method selector")
        }
    }
}

// ---------------------------------------------------------------------------
// Laws of the dispatch relation.
// ---------------------------------------------------------------------------

/// Law: no error crosses the boundary in any form other than a well-formed
/// result buffer. A release returns the empty buffer; every other dispatch
/// returns at least a status byte, and the status is success, user error, or
/// protocol error.
pub proof fn lemma_response_well_formed<T>(
    pre: Map<u64, T>,
    handle: u64,
    selector: u32,
    args: Seq<u8>,
    post: Map<u64, T>,
    resp: Seq<u8>,
)
    requires
        dispatch_transition(pre, handle, selector, args, post, resp),
    ensures
        selector == IDX_CALLBACK_FREE ==> resp == release_response(),
        selector != IDX_CALLBACK_FREE ==> resp.len() >= 1 && (resp[0] == STATUS_OK || resp[0]
            == STATUS_USER_ERROR || resp[0] == STATUS_PROTOCOL_ERROR),
{
    if selector != IDX_CALLBACK_FREE {
        if exists|v: Option<Seq<char>>| resp == #[trigger] ok_opt_string_response(v) {
            let v = choose|v: Option<Seq<char>>| resp == #[trigger] ok_opt_string_response(v);
            assert(resp[0] == STATUS_OK);
        } else if exists|e: Seq<char>| resp == #[trigger] user_error_response(e) {
            let e = choose|e: Seq<char>| resp == #[trigger] user_error_response(e);
            assert(resp[0] == STATUS_USER_ERROR);
        } else if exists|m: Seq<char>| resp == #[trigger] protocol_error_response(m) {
            let m = choose|m: Seq<char>| resp == #[trigger] protocol_error_response(m);
            assert(resp[0] == STATUS_PROTOCOL_ERROR);
        } else {
            assert(resp == ok_unit_response());
        }
    }
}

/// Law: releasing a handle makes it stale. After a release dispatch, any
/// later non-release dispatch on the same handle moves nothing and reports
/// the stale handle.
pub proof fn lemma_release_then_stale<T>(
    m0: Map<u64, T>,
    m1: Map<u64, T>,
    m2: Map<u64, T>,
    handle: u64,
    args0: Seq<u8>,
    resp0: Seq<u8>,
    selector: u32,
    args1: Seq<u8>,
    resp1: Seq<u8>,
)
    requires
        dispatch_transition(m0, handle, IDX_CALLBACK_FREE, args0, m1, resp0),
        dispatch_transition(m1, handle, selector, args1, m2, resp1),
        selector != IDX_CALLBACK_FREE,
    ensures
        !m1.contains_key(handle),
        m2 == m1,
        resp1 == protocol_error_response(stale_handle_message()),
{
}

/// Law: dispatch never revives a handle. A handle absent from the map is
/// still absent after any dispatch whatsoever, so once released it fails
/// every later call until the end of the run; only a fresh registration
/// issues handles, and those are new ones.
pub proof fn lemma_no_revival<T>(
    pre: Map<u64, T>,
    handle: u64,
    selector: u32,
    args: Seq<u8>,
    post: Map<u64, T>,
    resp: Seq<u8>,
    stale: u64,
)
    requires
        dispatch_transition(pre, handle, selector, args, post, resp),
        !pre.contains_key(stale),
    ensures
        !post.contains_key(stale),
{
}

/// Law: a user error leaves the handle live. A non-release dispatch whose
/// response carries the user-error status changes nothing: the map stays as
/// it was and the handle it named is still live.
pub proof fn lemma_user_error_keeps_live<T>(
    pre: Map<u64, T>,
    handle: u64,
    selector: u32,
    args: Seq<u8>,
    post: Map<u64, T>,
    resp: Seq<u8>,
)
    requires
        dispatch_transition(pre, handle, selector, args, post, resp),
        selector != IDX_CALLBACK_FREE,
        resp.len() >= 1,
        resp[0] == STATUS_USER_ERROR,
    ensures
        post == pre,
        pre.contains_key(handle),
        post.contains_key(handle),
{
    if !pre.contains_key(handle) {
        assert(resp == protocol_error_response(stale_handle_message()));
        assert(resp[0] == STATUS_PROTOCOL_ERROR);
    }
}

impl<K: Keychain> ForeignCallback for KeychainDispatcher<K> {
    /// The dispatcher stays well formed across invocations.
    closed spec fn inv(&self) -> bool {
        self.wf()
    }

    fn invoke(&mut self, handle: u64, method: u32, args: Vec<u8>) -> (resp: Vec<u8>) {
        self.dispatch(handle, method, args)
    }
}

} // verus!
