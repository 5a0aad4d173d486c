//! The detail of the last failure, kept until it is taken or the next call begins.
use vstd::prelude::*;
use vstd::string::*;
use vstd::utf8::encode_utf8;
use crate::error::PQSigningError;

verus! {

/// The byte of a space.
pub const SPACE: u8 = 0x20;

/// The detail of the last failure, if one is waiting to be taken. Each thread of a program
/// keeps one of its own.
pub struct LastError {
    message: Option<String>,
}

impl View for LastError {
    type V = Option<Seq<char>>;

    closed spec fn view(&self) -> Option<Seq<char>> {
        match self.message {
            Some(message) => Some(message@),
            None => None,
        }
    }
}

impl LastError {
    /// No failure yet.
    pub fn new() -> (last_error: LastError)
        ensures
            last_error@ is None,
    {
        LastError { message: None }
    }
}

/// The detail that is kept when the proof system refuses: the step, and its own words.
pub open spec fn failure_detail(stage: Seq<char>, err: Seq<char>) -> Seq<char> {
    "leanvm-xmss: "@ + stage + " failed: "@ + err
}

/// The bytes of a C string with this message, without the terminator: a byte that would end
/// the string early is a space instead.
pub open spec fn c_string_bytes(message: Seq<char>) -> Seq<u8> {
    encode_utf8(message).map_values(
        |byte: u8|
            if byte == 0 {
                SPACE
            } else {
                byte
            },
    )
}

/// Keeps `message` in place of what was kept before.
pub fn set_last_error(last_error: &mut LastError, message: String)
    ensures
        final(last_error)@ == Some(message@),
{
    last_error.message = Some(message);
}

/// Forgets what was kept.
pub fn clear_last_error(last_error: &mut LastError)
    ensures
        final(last_error)@ is None,
{
    last_error.message = None;
}

/// The bytes of a message as a C string, without the terminator.
pub fn cstring_from_message(message: String) -> (bytes: Vec<u8>)
    ensures
        bytes@ == c_string_bytes(message@),
{
    let encoded = message.as_str().as_bytes();
    let mut bytes: Vec<u8> = Vec::with_capacity(encoded.len());
    let mut i: usize = 0;
    while i < encoded.len()
        invariant
            i <= encoded@.len(),
            encoded@ == encode_utf8(message@),
            bytes@ == c_string_bytes(message@).take(i as int),
        decreases encoded@.len() - i,
    {
        let byte: u8 = encoded[i];
        bytes.push(
            if byte == 0 {
                SPACE
            } else {
                byte
            },
        );
        i += 1;
        assert(bytes@ =~= c_string_bytes(message@).take(i as int));
    }
    assert(bytes@ =~= c_string_bytes(message@));
    bytes
}

/// Keeps what the proof system said when it refused in the step `stage`.
pub fn aggregation_error(last_error: &mut LastError, stage: &str, err: &str) -> (status:
    PQSigningError)
    ensures
        status == PQSigningError::UnknownError,
        final(last_error)@ == Some(failure_detail(stage@, err@)),
{
    let mut message = "leanvm-xmss: ".to_owned();
    message.append(stage);
    message.append(" failed: ");
    message.append(err);
    set_last_error(last_error, message);
    PQSigningError::UnknownError
}

/// Takes what was kept, as the bytes of a C string without the terminator. Nothing is kept
/// after that.
pub fn pq_take_last_error_message(last_error: &mut LastError) -> (taken: Option<Vec<u8>>)
    ensures
        taken is Some <==> old(last_error)@ is Some,
        taken matches Some(bytes) ==> bytes@ == c_string_bytes(old(last_error)@->0),
        final(last_error)@ is None,
{
    match last_error.message.take() {
        Some(message) => Some(cstring_from_message(message)),
        None => None,
    }
}

/// Prepares the prover. The detail of an earlier failure is forgotten, and a failure of the
/// preparation (`Err`: it panicked) is kept.
pub fn pq_xmss_aggregation_setup_prover<F: FnOnce() -> Result<(), ()>>(
    last_error: &mut LastError,
    setup_prover: F,
)
    requires
        call_requires(setup_prover, ()),
    ensures
        exists|answer: Result<(), ()>|
            #[trigger] call_ensures(setup_prover, (), answer) && final(last_error)@ == (
            match answer {
                Ok(_) => None,
                Err(_) => Some("leanvm-xmss: prover setup failed"@),
            }),
{
    clear_last_error(last_error);
    let answer = setup_prover();
    if answer.is_err() {
        set_last_error(last_error, "leanvm-xmss: prover setup failed".to_owned());
    }
    assert(call_ensures(setup_prover, (), answer));
}

/// Prepares the prover without its memory arena. The detail of an earlier failure is
/// forgotten, and a failure of the preparation (`Err`: it panicked) is kept.
pub fn pq_xmss_aggregation_setup_prover_without_arena<F: FnOnce() -> Result<(), ()>>(
    last_error: &mut LastError,
    setup_prover_without_arena: F,
)
    requires
        call_requires(setup_prover_without_arena, ()),
    ensures
        exists|answer: Result<(), ()>|
            #[trigger] call_ensures(setup_prover_without_arena, (), answer) && final(last_error)@
                == (match answer {
                Ok(_) => None,
                Err(_) => Some("leanvm-xmss: prover setup failed"@),
            }),
{
    clear_last_error(last_error);
    let answer = setup_prover_without_arena();
    if answer.is_err() {
        set_last_error(last_error, "leanvm-xmss: prover setup failed".to_owned());
    }
    assert(call_ensures(setup_prover_without_arena, (), answer));
}

/// Prepares the verifier. A failure of the preparation (`Err`: it panicked) is passed over.
pub fn pq_xmss_aggregation_setup_verifier<F: FnOnce() -> Result<(), ()>>(setup_verifier: F)
    requires
        call_requires(setup_verifier, ()),
    ensures
        exists|answer: Result<(), ()>| call_ensures(setup_verifier, (), answer),
{
    let answer = setup_verifier();
    assert(call_ensures(setup_verifier, (), answer));
}

/// The bytes that are handed out never end the C string early.
pub proof fn law_c_string_has_no_terminator(message: Seq<char>)
    ensures
        forall|i: int| 0 <= i < c_string_bytes(message).len() ==> c_string_bytes(message)[i] != 0,
{
}

/// A message without a zero byte is handed out as its UTF-8 encoding.
pub proof fn law_c_string_keeps_message(message: Seq<char>)
    requires
        forall|i: int| 0 <= i < encode_utf8(message).len() ==> encode_utf8(message)[i] != 0,
    ensures
        c_string_bytes(message) == encode_utf8(message),
{
    assert(c_string_bytes(message) =~= encode_utf8(message));
}

} // verus!
