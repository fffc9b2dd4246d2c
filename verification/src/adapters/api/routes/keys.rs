//! The pre-key endpoints: checking uploaded keys and presenting a bundle.
use vstd::prelude::*;

use crate::adapters::api::error::{error_code_text, ApiError, ErrorCode, STATUS_BAD_REQUEST};
use crate::domain::pre_key::{OneTimePreKey, PreKeyBundle, SignedPreKey};
use crate::domain::value_objects::{KeyId, Signature, UserId, X25519PublicKey};

verus! {

#[derive(Debug)]
pub struct UploadPreKeysBody {
    pub signed_pre_key: SignedPreKeyDto,
    pub one_time_pre_keys: Vec<OneTimePreKeyDto>,
}

#[derive(Debug)]
pub struct SignedPreKeyDto {
    pub key_id: u32,
    pub public_key: Vec<u8>,
    pub signature: Vec<u8>,
}

#[derive(Debug)]
pub struct OneTimePreKeyDto {
    pub key_id: u32,
    pub public_key: Vec<u8>,
}

#[derive(Debug)]
pub struct PreKeyBundleResponse {
    pub identity_key: String,
    pub signed_pre_key: SignedPreKeyResponse,
    pub one_time_pre_keys: Vec<OneTimePreKeyResponse>,
}

#[derive(Debug)]
pub struct SignedPreKeyResponse {
    pub key_id: u32,
    pub public_key: String,
    pub signature: String,
}

#[derive(Debug)]
pub struct OneTimePreKeyResponse {
    pub key_id: u32,
    pub public_key: String,
}

/// Whether an error answer has this status, code and message.
pub open spec fn is_api_error(e: (u16, ApiError), status: u16, code: ErrorCode, message: Seq<char>) -> bool {
    e.0 == status && e.1.error.code@ == error_code_text(code) && e.1.error.message@ == message
}

/// The lower-case hexadecimal digit of a value below 16.
pub open spec fn hex_digit(n: int) -> char {
    if n < 10 {
        (('0' as int) + n) as char
    } else {
        (('a' as int) + n - 10) as char
    }
}

/// Two lower-case hexadecimal digits per byte, the high one first.
pub open spec fn hex_text(bytes: Seq<u8>) -> Seq<char>
    decreases bytes.len(),
{
    if bytes.len() == 0 {
        Seq::empty()
    } else {
        hex_text(bytes.drop_last()) + seq![
            hex_digit(bytes.last() as int / 16),
            hex_digit(bytes.last() as int % 16),
        ]
    }
}

/// The lower-case hexadecimal digits in order.
pub open spec fn hex_alphabet() -> Seq<char> {
    seq!['0', '1', '2', '3', '4', '5', '6', '7', '8', '9', 'a', 'b', 'c', 'd', 'e', 'f']
}

/// Each value below 16 is written as its digit of the lower-case hexadecimal alphabet.
pub proof fn lemma_hex_digit_alphabet(n: int)
    requires
        0 <= n < 16,
    ensures
        hex_digit(n) == hex_alphabet()[n],
        hex_digit(n) == "0123456789abcdef"@[n],
{
    reveal_strlit("0123456789abcdef");
    assert("0123456789abcdef"@ =~= hex_alphabet());
    if n == 0 {
        assert(hex_digit(0) == hex_alphabet()[0]);
    } else if n == 1 {
        assert(hex_digit(1) == hex_alphabet()[1]);
    } else if n == 2 {
        assert(hex_digit(2) == hex_alphabet()[2]);
    } else if n == 3 {
        assert(hex_digit(3) == hex_alphabet()[3]);
    } else if n == 4 {
        assert(hex_digit(4) == hex_alphabet()[4]);
    } else if n == 5 {
        assert(hex_digit(5) == hex_alphabet()[5]);
    } else if n == 6 {
        assert(hex_digit(6) == hex_alphabet()[6]);
    } else if n == 7 {
        assert(hex_digit(7) == hex_alphabet()[7]);
    } else if n == 8 {
        assert(hex_digit(8) == hex_alphabet()[8]);
    } else if n == 9 {
        assert(hex_digit(9) == hex_alphabet()[9]);
    } else if n == 10 {
        assert(hex_digit(10) == hex_alphabet()[10]);
    } else if n == 11 {
        assert(hex_digit(11) == hex_alphabet()[11]);
    } else if n == 12 {
        assert(hex_digit(12) == hex_alphabet()[12]);
    } else if n == 13 {
        assert(hex_digit(13) == hex_alphabet()[13]);
    } else if n == 14 {
        assert(hex_digit(14) == hex_alphabet()[14]);
    } else {
        assert(hex_digit(15) == hex_alphabet()[15]);
    }
}

/// Hexadecimal text has two characters per byte: at `2i` the digit of the byte's high
/// four bits and at `2i + 1` that of its low four bits, from the alphabet `0-9a-f`.
pub proof fn lemma_hex_text_layout(bytes: Seq<u8>)
    ensures
        hex_text(bytes).len() == 2 * bytes.len(),
        forall|i: int|
            0 <= i < bytes.len() ==> hex_text(bytes)[2 * i] == hex_alphabet()[bytes[i] as int / 16]
                && hex_text(bytes)[2 * i + 1] == hex_alphabet()[bytes[i] as int % 16],
    decreases bytes.len(),
{
    if bytes.len() > 0 {
        let init = bytes.drop_last();
        lemma_hex_text_layout(init);
        let b = bytes.last();
        lemma_hex_digit_alphabet(b as int / 16);
        lemma_hex_digit_alphabet(b as int % 16);
        assert forall|i: int| 0 <= i < bytes.len() implies hex_text(bytes)[2 * i] == hex_alphabet()[bytes[i] as int
            / 16] && hex_text(bytes)[2 * i + 1] == hex_alphabet()[bytes[i] as int % 16] by {
            if i < init.len() {
                assert(bytes[i] == init[i]);
            }
        }
    }
}

/// The one-character text of a hexadecimal digit.
fn hex_digit_str(n: u8) -> (r: &'static str)
    requires
        n < 16,
    ensures
        r@ == seq![hex_digit(n as int)],
{
    match n {
        0 => { proof { reveal_strlit("0"); } "0" },
        1 => { proof { reveal_strlit("1"); } "1" },
        2 => { proof { reveal_strlit("2"); } "2" },
        3 => { proof { reveal_strlit("3"); } "3" },
        4 => { proof { reveal_strlit("4"); } "4" },
        5 => { proof { reveal_strlit("5"); } "5" },
        6 => { proof { reveal_strlit("6"); } "6" },
        7 => { proof { reveal_strlit("7"); } "7" },
        8 => { proof { reveal_strlit("8"); } "8" },
        9 => { proof { reveal_strlit("9"); } "9" },
        10 => { proof { reveal_strlit("a"); } "a" },
        11 => { proof { reveal_strlit("b"); } "b" },
        12 => { proof { reveal_strlit("c"); } "c" },
        13 => { proof { reveal_strlit("d"); } "d" },
        14 => { proof { reveal_strlit("e"); } "e" },
        _ => { proof { reveal_strlit("f"); } "f" },
    }
}

/// Lower-case hexadecimal, two digits per byte.
pub fn encode_hex(bytes: &[u8]) -> (r: String)
    ensures
        r@ == hex_text(bytes@),
        r@.len() == 2 * bytes@.len(),
        forall|i: int|
            0 <= i < bytes@.len() ==> r@[2 * i] == hex_alphabet()[bytes@[i] as int / 16] && r@[2 * i + 1]
                == hex_alphabet()[bytes@[i] as int % 16],
{
    proof {
        lemma_hex_text_layout(bytes@);
    }
    let n = bytes.len();
    let mut out = String::new();
    let mut i: usize = 0;
    while i < n
        invariant
            n == bytes@.len(),
            i <= n,
            out@ == hex_text(bytes@.take(i as int)),
        decreases n - i,
    {
        let b = bytes[i];
        out.append(hex_digit_str(b / 16));
        out.append(hex_digit_str(b % 16));
        proof {
            assert(bytes@.take(i + 1).drop_last() =~= bytes@.take(i as int));
            assert(bytes@.take(i + 1).last() == b);
        }
        i = i + 1;
    }
    assert(bytes@.take(n as int) =~= bytes@);
    out
}

/// Copies a 64-byte buffer into an array.
pub(crate) fn array64_of(bytes: &Vec<u8>) -> (r: [u8; 64])
    requires
        bytes@.len() == 64,
    ensures
        r@ == bytes@,
{
    let mut out = [0u8; 64];
    let mut i: usize = 0;
    while i < 64
        invariant
            i <= 64,
            bytes@.len() == 64,
            forall|j: int| 0 <= j < i ==> out@[j] == bytes@[j],
        decreases 64 - i,
    {
        out[i] = bytes[i];
        i = i + 1;
    }
    assert(out@ =~= bytes@);
    out
}

/// Copies a 32-byte buffer into an array.
pub(crate) fn array32_of(bytes: &Vec<u8>) -> (r: [u8; 32])
    requires
        bytes@.len() == 32,
    ensures
        r@ == bytes@,
{
    let mut out = [0u8; 32];
    let mut i: usize = 0;
    while i < 32
        invariant
            i <= 32,
            bytes@.len() == 32,
            forall|j: int| 0 <= j < i ==> out@[j] == bytes@[j],
        decreases 32 - i,
    {
        out[i] = bytes[i];
        i = i + 1;
    }
    assert(out@ =~= bytes@);
    out
}

/// Checks an uploaded signed pre-key: a 32-byte public key, then a 64-byte signature.
pub fn prepare_signed_pre_key(user_id: UserId, dto: &SignedPreKeyDto) -> (r: Result<SignedPreKey, (u16, ApiError)>)
    ensures
        dto.public_key@.len() != 32 ==> (r matches Err(e) && is_api_error(
            e,
            STATUS_BAD_REQUEST,
            ErrorCode::ValidationError,
            "signed_pre_key.public_key must be 32 bytes"@,
        )),
        dto.public_key@.len() == 32 && dto.signature@.len() != 64 ==> (r matches Err(e) && is_api_error(
            e,
            STATUS_BAD_REQUEST,
            ErrorCode::ValidationError,
            "signed_pre_key.signature must be 64 bytes"@,
        )),
        dto.public_key@.len() == 32 && dto.signature@.len() == 64 ==> (r matches Ok(k) && k@.id == dto.key_id
            && k@.user_id == user_id && k@.public_key == dto.public_key@ && k@.signature == dto.signature@),
{
    if dto.public_key.len() != 32 {
        return Err(
            ApiError::new(
                STATUS_BAD_REQUEST,
                ErrorCode::ValidationError,
                "signed_pre_key.public_key must be 32 bytes",
            ),
        );
    }
    if dto.signature.len() != 64 {
        return Err(
            ApiError::new(
                STATUS_BAD_REQUEST,
                ErrorCode::ValidationError,
                "signed_pre_key.signature must be 64 bytes",
            ),
        );
    }
    let pk = array32_of(&dto.public_key);
    let sig = array64_of(&dto.signature);
    Ok(SignedPreKey::new(KeyId::new(dto.key_id), user_id, X25519PublicKey::new(pk), Signature::new(sig)))
}

/// Checks uploaded one-time pre-keys in order; each public key must be 32 bytes.
pub fn prepare_one_time_pre_keys(user_id: UserId, dtos: &Vec<OneTimePreKeyDto>) -> (r: Result<
    Vec<OneTimePreKey>,
    (u16, ApiError),
>)
    ensures
        (exists|i: int| 0 <= i < dtos@.len() && (#[trigger] dtos@[i]).public_key@.len() != 32) ==> (r matches Err(e)
            && is_api_error(
            e,
            STATUS_BAD_REQUEST,
            ErrorCode::ValidationError,
            "one_time_pre_key.public_key must be 32 bytes"@,
        )),
        (forall|i: int| 0 <= i < dtos@.len() ==> (#[trigger] dtos@[i]).public_key@.len() == 32) ==> (r matches Ok(
            keys,
        ) && keys@.len() == dtos@.len() && forall|i: int|
            0 <= i < keys@.len() ==> (#[trigger] keys@[i])@.id == dtos@[i].key_id && keys@[i]@.user_id == user_id
                && keys@[i]@.public_key == dtos@[i].public_key@),
{
    let n = dtos.len();
    let mut keys: Vec<OneTimePreKey> = Vec::new();
    let mut i: usize = 0;
    while i < n
        invariant
            n == dtos@.len(),
            i <= n,
            keys@.len() == i,
            forall|j: int| 0 <= j < i ==> (#[trigger] dtos@[j]).public_key@.len() == 32,
            forall|j: int|
                0 <= j < i ==> (#[trigger] keys@[j])@.id == dtos@[j].key_id && keys@[j]@.user_id == user_id
                    && keys@[j]@.public_key == dtos@[j].public_key@,
        decreases n - i,
    {
        let otk = &dtos[i];
        if otk.public_key.len() != 32 {
            return Err(
                ApiError::new(
                    STATUS_BAD_REQUEST,
                    ErrorCode::ValidationError,
                    "one_time_pre_key.public_key must be 32 bytes",
                ),
            );
        }
        let pk = array32_of(&otk.public_key);
        keys.push(OneTimePreKey::new(KeyId::new(otk.key_id), user_id, X25519PublicKey::new(pk)));
        i = i + 1;
    }
    Ok(keys)
}

/// A bundle as the API presents it: the keys in hexadecimal.
pub fn bundle_response(bundle: &PreKeyBundle) -> (r: PreKeyBundleResponse)
    ensures
        r.identity_key@ == hex_text(bundle.identity_key@),
        r.signed_pre_key.key_id == bundle.signed_pre_key@.id,
        r.signed_pre_key.public_key@ == hex_text(bundle.signed_pre_key@.public_key),
        r.signed_pre_key.signature@ == hex_text(bundle.signed_pre_key@.signature),
        r.one_time_pre_keys@.len() == bundle.one_time_pre_keys@.len(),
        forall|i: int|
            0 <= i < r.one_time_pre_keys@.len() ==> (#[trigger] r.one_time_pre_keys@[i]).key_id
                == bundle.one_time_pre_keys@[i]@.id && r.one_time_pre_keys@[i].public_key@ == hex_text(
                bundle.one_time_pre_keys@[i]@.public_key,
            ),
{
    let n = bundle.one_time_pre_keys.len();
    let mut one_time: Vec<OneTimePreKeyResponse> = Vec::new();
    let mut i: usize = 0;
    while i < n
        invariant
            n == bundle.one_time_pre_keys@.len(),
            i <= n,
            one_time@.len() == i,
            forall|j: int|
                0 <= j < i ==> (#[trigger] one_time@[j]).key_id == bundle.one_time_pre_keys@[j]@.id
                    && one_time@[j].public_key@ == hex_text(bundle.one_time_pre_keys@[j]@.public_key),
        decreases n - i,
    {
        let k = &bundle.one_time_pre_keys[i];
        one_time.push(
            OneTimePreKeyResponse { key_id: k.id().as_u32(), public_key: encode_hex(k.public_key().as_bytes()) },
        );
        i = i + 1;
    }
    let spk = &bundle.signed_pre_key;
    PreKeyBundleResponse {
        identity_key: encode_hex(bundle.identity_key.as_slice()),
        signed_pre_key: SignedPreKeyResponse {
            key_id: spk.id().as_u32(),
            public_key: encode_hex(spk.public_key().as_bytes()),
            signature: encode_hex(spk.signature().as_bytes()),
        },
        one_time_pre_keys: one_time,
    }
}

} // verus!
