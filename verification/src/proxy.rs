//! The host-side proxy for the keychain example interface.
//!
//! The proxy owns the handle of one guest object and implements the
//! interface for native callers: each method serializes its arguments,
//! reads the registered trampoline, invokes it, and decodes the returned
//! buffer. The proxy is movable with its handle and not copyable; releasing
//! it issues the reserved selector `0` exactly once.

use crate::codec::{
    read_opt_string, read_opt_string_at, read_string, read_string_at, string_len_fits,
    write_string,
};
use crate::dispatch::{
    ok_opt_string_response, ok_unit_response, protocol_error_response, user_error_response,
    KEYCHAIN_GET_SELECTOR, KEYCHAIN_PUT_SELECTOR, STATUS_OK, STATUS_PROTOCOL_ERROR,
    STATUS_USER_ERROR,
};
use crate::registry::{ForeignCallback, ForeignCallbackInternals, IDX_CALLBACK_FREE};
use vstd::prelude::*;

verus! {

/// How a proxy call fails.
#[derive(Debug, PartialEq, Eq)]
pub enum CallError {
    /// The interface's trampoline was read before `set_callback` ran.
    NotInitialized,
    /// The returned buffer does not decode as the method's return type:
    /// version skew or a bindings bug, to be reported to the developer.
    ProtocolMismatch,
    /// The user's implementation raised; the payload is the user's error.
    UserError(String),
}

/// Abstract reading of a response that carries an optional string.
pub enum OptStringReply {
    /// Success with the value.
    Value(Option<Seq<char>>),
    /// The user's implementation raised with this payload.
    Raised(Seq<char>),
    /// Anything else: a protocol-error report or a malformed buffer.
    Mismatch,
}

/// Abstract reading of a response that carries no payload.
pub enum UnitReply {
    /// Success.
    Done,
    /// The user's implementation raised with this payload.
    Raised(Seq<char>),
    /// Anything else: a protocol-error report or a malformed buffer.
    Mismatch,
}

/// How the proxy reads a response to a method returning an optional string:
/// the status byte decides, and the payload must fill the buffer exactly.
pub open spec fn parse_opt_string_reply(resp: Seq<u8>) -> OptStringReply {
    if resp.len() < 1 {
        OptStringReply::Mismatch
    } else if resp[0] == STATUS_OK {
        match read_opt_string_at(resp, 1) {
            Ok((v, end)) => if end == resp.len() {
                OptStringReply::Value(v)
            } else {
                OptStringReply::Mismatch
            },
            Err(_) => OptStringReply::Mismatch,
        }
    } else if resp[0] == STATUS_USER_ERROR {
        match read_string_at(resp, 1) {
            Ok((e, end)) => if end == resp.len() {
                OptStringReply::Raised(e)
            } else {
                OptStringReply::Mismatch
            },
            Err(_) => OptStringReply::Mismatch,
        }
    } else {
        OptStringReply::Mismatch
    }
}

/// How the proxy reads a response to a method returning nothing.
pub open spec fn parse_unit_reply(resp: Seq<u8>) -> UnitReply {
    if resp.len() < 1 {
        UnitReply::Mismatch
    } else if resp[0] == STATUS_OK {
        if resp.len() == 1 {
            UnitReply::Done
        } else {
            UnitReply::Mismatch
        }
    } else if resp[0] == STATUS_USER_ERROR {
        match read_string_at(resp, 1) {
            Ok((e, end)) => if end == resp.len() {
                UnitReply::Raised(e)
            } else {
                UnitReply::Mismatch
            },
            Err(_) => UnitReply::Mismatch,
        }
    } else {
        UnitReply::Mismatch
    }
}

/// The caller's result mirrors the abstract reading of the response.
pub open spec fn opt_string_result_matches(
    reply: OptStringReply,
    r: Result<Option<String>, CallError>,
) -> bool {
    match reply {
        OptStringReply::Value(v) => match v {
            Some(s) => r matches Ok(Some(got)) && got@ == s,
            None => r matches Ok(got) && got is None,
        },
        OptStringReply::Raised(e) => r matches Err(CallError::UserError(m)) && m@ == e,
        OptStringReply::Mismatch => r == Err::<Option<String>, CallError>(
            CallError::ProtocolMismatch,
        ),
    }
}

/// The caller's result mirrors the abstract reading of the response.
pub open spec fn unit_result_matches(reply: UnitReply, r: Result<(), CallError>) -> bool {
    match reply {
        UnitReply::Done => r is Ok,
        UnitReply::Raised(e) => r matches Err(CallError::UserError(m)) && m@ == e,
        UnitReply::Mismatch => r == Err::<(), CallError>(CallError::ProtocolMismatch),
    }
}

/// Decodes a response carrying an optional string, exactly as
/// [`parse_opt_string_reply`] reads it.
pub fn decode_opt_string_reply(resp: &Vec<u8>) -> (r: Result<Option<String>, CallError>)
    ensures
        opt_string_result_matches(parse_opt_string_reply(resp@), r),
{
    proof {
        assert(resp@.len() == resp.len());
    }
    if resp.len() < 1 {
        return Err(CallError::ProtocolMismatch);
    }
    let status = resp[0];
    if status == STATUS_OK {
        match read_opt_string(resp, 1) {
            Ok((v, end)) => if end == resp.len() {
                Ok(v)
            } else {
                Err(CallError::ProtocolMismatch)
            },
            Err(_) => Err(CallError::ProtocolMismatch),
        }
    } else if status == STATUS_USER_ERROR {
        match read_string(resp, 1) {
            Ok((e, end)) => if end == resp.len() {
                Err(CallError::UserError(e))
            } else {
                Err(CallError::ProtocolMismatch)
            },
            Err(_) => Err(CallError::ProtocolMismatch),
        }
    } else {
        Err(CallError::ProtocolMismatch)
    }
}

/// Decodes a response carrying no payload, exactly as [`parse_unit_reply`]
/// reads it.
pub fn decode_unit_reply(resp: &Vec<u8>) -> (r: Result<(), CallError>)
    ensures
        unit_result_matches(parse_unit_reply(resp@), r),
{
    proof {
        assert(resp@.len() == resp.len());
    }
    if resp.len() < 1 {
        return Err(CallError::ProtocolMismatch);
    }
    let status = resp[0];
    if status == STATUS_OK {
        if resp.len() == 1 {
            Ok(())
        } else {
            Err(CallError::ProtocolMismatch)
        }
    } else if status == STATUS_USER_ERROR {
        match read_string(resp, 1) {
            Ok((e, end)) => if end == resp.len() {
                Err(CallError::UserError(e))
            } else {
                Err(CallError::ProtocolMismatch)
            },
            Err(_) => Err(CallError::ProtocolMismatch),
        }
    } else {
        Err(CallError::ProtocolMismatch)
    }
}

// ---------------------------------------------------------------------------
// Agreement between the two sides: the host reads every response the guest
// can encode back to exactly what the guest meant by it.
// ---------------------------------------------------------------------------

/// Law: a successful get response parses to exactly the value the guest
/// encoded.
pub proof fn lemma_get_value_agreement(v: Option<Seq<char>>)
    requires
        crate::codec::opt_string_fits(v),
    ensures
        parse_opt_string_reply(ok_opt_string_response(v)) == (OptStringReply::Value(v)),
{
    let payload = crate::codec::enc_opt_string(v);
    let resp = ok_opt_string_response(v);
    crate::codec::lemma_roundtrip_opt_string(v, Seq::<u8>::empty());
    assert(payload + Seq::<u8>::empty() =~= payload);
    crate::codec::lemma_read_opt_string_prefix(seq![STATUS_OK], payload, 0);
    assert(resp[0] == STATUS_OK);
}

/// Law: a user-error response parses to exactly the payload the guest
/// encoded, whichever method was called.
pub proof fn lemma_user_error_agreement(e: Seq<char>)
    requires
        string_len_fits(e),
    ensures
        parse_opt_string_reply(user_error_response(e)) == (OptStringReply::Raised(e)),
        parse_unit_reply(user_error_response(e)) == (UnitReply::Raised(e)),
{
    let payload = crate::codec::enc_string(e);
    let resp = user_error_response(e);
    crate::codec::lemma_roundtrip_string(e, Seq::<u8>::empty());
    assert(payload + Seq::<u8>::empty() =~= payload);
    crate::codec::lemma_read_string_prefix(seq![STATUS_USER_ERROR], payload, 0);
    assert(resp[0] == STATUS_USER_ERROR);
}

/// Law: the empty-payload success response parses as done.
pub proof fn lemma_unit_agreement()
    ensures
        parse_unit_reply(ok_unit_response()) == (UnitReply::Done),
{
    assert(ok_unit_response()[0] == STATUS_OK);
}

/// Law: a protocol-error report is never mistaken for a value or for a user
/// error, whatever its diagnostic says.
pub proof fn lemma_protocol_error_agreement(msg: Seq<char>)
    ensures
        parse_opt_string_reply(protocol_error_response(msg)) == (OptStringReply::Mismatch),
        parse_unit_reply(protocol_error_response(msg)) == (UnitReply::Mismatch),
{
    assert(protocol_error_response(msg)[0] == STATUS_PROTOCOL_ERROR);
}

/// Law, end to end: whatever response the dispatcher produces for a
/// well-formed get invocation on a live handle, the host reads it back as
/// the user's value, as the user's error payload, or as a mismatch report;
/// it never misreads one outcome as another.
pub proof fn lemma_get_end_to_end<T>(
    pre: Map<u64, T>,
    handle: u64,
    args: Seq<u8>,
    post: Map<u64, T>,
    resp: Seq<u8>,
)
    requires
        crate::dispatch::dispatch_transition(
            pre,
            handle,
            KEYCHAIN_GET_SELECTOR,
            args,
            post,
            resp,
        ),
        pre.contains_key(handle),
        crate::dispatch::get_args_ok(args),
    ensures
        ({
            ||| (exists|v: Option<Seq<char>>|
                resp == #[trigger] ok_opt_string_response(v) && parse_opt_string_reply(resp)
                    == OptStringReply::Value(v))
            ||| (exists|e: Seq<char>|
                resp == #[trigger] user_error_response(e) && parse_opt_string_reply(resp)
                    == OptStringReply::Raised(e))
            ||| parse_opt_string_reply(resp) == (OptStringReply::Mismatch)
        }),
{
    if exists|v: Option<Seq<char>>|
        crate::codec::opt_string_fits(v) && resp == #[trigger] ok_opt_string_response(v) {
        let v = choose|v: Option<Seq<char>>|
            crate::codec::opt_string_fits(v) && resp == #[trigger] ok_opt_string_response(v);
        lemma_get_value_agreement(v);
    } else if exists|e: Seq<char>| string_len_fits(e) && resp == #[trigger] user_error_response(
        e,
    ) {
        let e = choose|e: Seq<char>|
            string_len_fits(e) && resp == #[trigger] user_error_response(e);
        lemma_user_error_agreement(e);
    } else {
        lemma_protocol_error_agreement(crate::dispatch::oversize_value_message());
    }
}

/// Law, end to end: the same for a well-formed put invocation.
pub proof fn lemma_put_end_to_end<T>(
    pre: Map<u64, T>,
    handle: u64,
    args: Seq<u8>,
    post: Map<u64, T>,
    resp: Seq<u8>,
)
    requires
        crate::dispatch::dispatch_transition(
            pre,
            handle,
            KEYCHAIN_PUT_SELECTOR,
            args,
            post,
            resp,
        ),
        pre.contains_key(handle),
        crate::dispatch::put_args_ok(args),
    ensures
        ({
            ||| (resp == ok_unit_response() && parse_unit_reply(resp) == UnitReply::Done)
            ||| (exists|e: Seq<char>|
                resp == #[trigger] user_error_response(e) && parse_unit_reply(resp)
                    == UnitReply::Raised(e))
            ||| parse_unit_reply(resp) == (UnitReply::Mismatch)
        }),
{
    if resp == ok_unit_response() {
        lemma_unit_agreement();
    } else if exists|e: Seq<char>| string_len_fits(e) && resp == #[trigger] user_error_response(
        e,
    ) {
        let e = choose|e: Seq<char>|
            string_len_fits(e) && resp == #[trigger] user_error_response(e);
        lemma_user_error_agreement(e);
    } else {
        lemma_protocol_error_agreement(crate::dispatch::oversize_value_message());
    }
}

/// The native-side stand-in for one guest keychain: owns the handle and
/// implements the interface by forwarding through the trampoline.
pub struct KeychainProxy {
    handle: u64,
}

impl KeychainProxy {
    /// The handle this proxy owns.
    pub closed spec fn spec_handle(&self) -> u64 {
        self.handle
    }

    /// A proxy lifted from a nonzero handle.
    pub fn new(handle: u64) -> (proxy: Self)
        requires
            handle != 0,
        ensures
            proxy.spec_handle() == handle,
    {
        KeychainProxy { handle }
    }

    /// The handle this proxy owns.
    pub fn handle(&self) -> (handle: u64)
        ensures
            handle == self.spec_handle(),
    {
        self.handle
    }

    /// Calls `get(key)` on the guest object: fails fast if the trampoline is
    /// unset, otherwise serializes the key, invokes selector `1`, and reads
    /// the response exactly as [`parse_opt_string_reply`] says.
    pub fn get<C: ForeignCallback>(
        &self,
        registry: &ForeignCallbackInternals,
        callback: &mut C,
        key: &str,
    ) -> (r: Result<Option<String>, CallError>)
        requires
            old(callback).inv(),
            string_len_fits(key@),
        ensures
            final(callback).inv(),
            registry.callback() is None ==> r == Err::<Option<String>, CallError>(
                CallError::NotInitialized,
            ) && *final(callback) == *old(callback),
            registry.callback() is Some ==> exists|resp: Seq<u8>|
                opt_string_result_matches(#[trigger] parse_opt_string_reply(resp), r),
    {
        if registry.get_callback().is_none() {
            return Err(CallError::NotInitialized);
        }
        let mut args = Vec::new();
        write_string(&mut args, key);
        let resp = callback.invoke(self.handle, KEYCHAIN_GET_SELECTOR, args);
        let r = decode_opt_string_reply(&resp);
        proof {
            assert(opt_string_result_matches(parse_opt_string_reply(resp@), r));
        }
        r
    }

    /// Calls `put(key, value)` on the guest object through selector `2`.
    pub fn put<C: ForeignCallback>(
        &self,
        registry: &ForeignCallbackInternals,
        callback: &mut C,
        key: &str,
        value: &str,
    ) -> (r: Result<(), CallError>)
        requires
            old(callback).inv(),
            string_len_fits(key@),
            string_len_fits(value@),
        ensures
            final(callback).inv(),
            registry.callback() is None ==> r == Err::<(), CallError>(CallError::NotInitialized)
                && *final(callback) == *old(callback),
            registry.callback() is Some ==> exists|resp: Seq<u8>|
                unit_result_matches(#[trigger] parse_unit_reply(resp), r),
    {
        if registry.get_callback().is_none() {
            return Err(CallError::NotInitialized);
        }
        let mut args = Vec::new();
        write_string(&mut args, key);
        write_string(&mut args, value);
        let resp = callback.invoke(self.handle, KEYCHAIN_PUT_SELECTOR, args);
        let r = decode_unit_reply(&resp);
        proof {
            assert(unit_result_matches(parse_unit_reply(resp@), r));
        }
        r
    }

    /// Releases the guest object: invokes the reserved selector `0` with an
    /// empty argument buffer and consumes the proxy, so release happens
    /// exactly once. The returned buffer's contents are ignored; it is
    /// consumed here.
    pub fn release<C: ForeignCallback>(
        self,
        registry: &ForeignCallbackInternals,
        callback: &mut C,
    ) -> (r: Result<(), CallError>)
        requires
            old(callback).inv(),
        ensures
            final(callback).inv(),
            registry.callback() is None ==> r == Err::<(), CallError>(CallError::NotInitialized)
                && *final(callback) == *old(callback),
            registry.callback() is Some ==> r == Ok::<(), CallError>(()),
    {
        if registry.get_callback().is_none() {
            return Err(CallError::NotInitialized);
        }
        let _resp = callback.invoke(self.handle, IDX_CALLBACK_FREE, Vec::new());
        Ok(())
    }
}

} // verus!
