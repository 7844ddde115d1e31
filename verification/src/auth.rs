//! Password hashing with Argon2id and a server-wide secret (the pepper).
//!
//! Hashes are PHC strings: `$argon2id$v=19$m=19456,t=2,p=1$<salt>$<tag>`, where
//! the salt is sixteen random bytes in unpadded Base64 and the tag is what
//! Argon2id computes from the password, the salt and the pepper.

use vstd::prelude::*;
use vstd::string::StringSliceAdditionalSpecFns;
use vstd::utf8::encode_utf8;
use argon2::PasswordHasher;
use argon2::PasswordVerifier;

verus! {

#[verifier::external_type_specification]
#[verifier::external_body]
pub struct ExArgon2<'key>(argon2::Argon2<'key>);

#[verifier::external_type_specification]
#[verifier::external_body]
pub struct ExArgon2Error(argon2::Error);

#[verifier::external_type_specification]
#[verifier::external_body]
pub struct ExPasswordHashError(argon2::password_hash::Error);

#[verifier::external_type_specification]
#[verifier::external_body]
pub struct ExPasswordHash<'a>(argon2::PasswordHash<'a>);

/// The largest pepper, and the largest password in bytes, that Argon2 takes.
pub const MAX_INPUT_LEN: usize = 0xFFFF_FFFF;

/// Why hashing a password failed.
#[derive(Clone, Copy, Debug, PartialEq, Eq, Structural)]
pub enum HashError {
    /// The pepper is longer than Argon2 takes as a secret.
    PepperTooLong,
    /// The password is longer than Argon2 takes.
    PasswordTooLong,
}

/// The Argon2id tag of a password under a pepper and a salt (the text after
/// the last `$` of the PHC string).
pub uninterp spec fn argon2id_tag(pepper: Seq<u8>, password: Seq<char>, salt: Seq<char>) -> Seq<char>;

/// Whether a text parses as a PHC string.
pub uninterp spec fn phc_parses(text: Seq<char>) -> bool;

/// Whether Argon2, keyed with a pepper, accepts a password against a parsed PHC string.
pub uninterp spec fn argon2_accepts(pepper: Seq<u8>, password: Seq<char>, text: Seq<char>) -> bool;

/// The length in bytes of the UTF-8 encoding of a text.
pub open spec fn utf8_len(s: Seq<char>) -> nat {
    encode_utf8(s).len()
}

/// The fixed head of every hash this library makes: algorithm, version and cost parameters.
pub open spec fn phc_head() -> Seq<char> {
    seq![
        '$', 'a', 'r', 'g', 'o', 'n', '2', 'i', 'd', '$', 'v', '=', '1', '9', '$', 'm', '=',
        '1', '9', '4', '5', '6', ',', 't', '=', '2', ',', 'p', '=', '1', '$',
    ]
}

/// The PHC string of a salt and a tag.
pub open spec fn phc_text(salt: Seq<char>, tag: Seq<char>) -> Seq<char> {
    phc_head() + salt + seq!['$'] + tag
}

/// Whether `c` belongs to the standard Base64 alphabet.
pub open spec fn is_b64_char(c: char) -> bool {
    ||| ('A' as int <= c as int && c as int <= 'Z' as int)
    ||| ('a' as int <= c as int && c as int <= 'z' as int)
    ||| ('0' as int <= c as int && c as int <= '9' as int)
    ||| c == '+'
    ||| c == '/'
}

/// Whether `s` is the unpadded Base64 text of sixteen bytes: twenty-two
/// characters, the last of which carries two bits followed by four zero bits.
pub open spec fn is_salt_text(s: Seq<char>) -> bool {
    &&& s.len() == 22
    &&& forall|i: int| 0 <= i < 22 ==> #[trigger] is_b64_char(s[i])
    &&& (s[21] == 'A' || s[21] == 'Q' || s[21] == 'g' || s[21] == 'w')
}

/// Whether `hash` is what hashing `password` under `pepper` gives for some salt.
/// The tag is the forty-three character Base64 text of Argon2id's 32-byte output.
pub open spec fn is_hash_of(hash: Seq<char>, password: Seq<char>, pepper: Seq<u8>) -> bool {
    exists|salt: Seq<char>|
        #[trigger] is_salt_text(salt) && argon2id_tag(pepper, password, salt).len() == 43 && hash
            == phc_text(salt, argon2id_tag(pepper, password, salt))
}

/// Whether a text has the layout of the hashes this library makes: the PHC
/// head, a salt as `generate_salt` makes, `$`, and a forty-three character tag.
pub open spec fn is_library_hash(text: Seq<char>) -> bool {
    &&& text.len() == 97
    &&& text.take(31) == phc_head()
    &&& is_salt_text(hash_salt(text))
    &&& text[53] == '$'
}

/// The salt field of a hash in the library's layout.
pub open spec fn hash_salt(text: Seq<char>) -> Seq<char> {
    text.subrange(31, 53)
}

/// The tag field of a hash in the library's layout.
pub open spec fn hash_tag(text: Seq<char>) -> Seq<char> {
    text.skip(54)
}

/// Whether a text starts like a PHC string: it is not empty and its first
/// character is `$`.
pub open spec fn starts_like_phc(text: Seq<char>) -> bool {
    text.len() > 0 && text[0] == '$'
}

/// Whether `password` matches the stored hash under `pepper`: the hash parses,
/// and Argon2 accepts the password against it.
pub open spec fn password_matches(stored: Seq<char>, password: Seq<char>, pepper: Seq<u8>) -> bool {
    phc_parses(stored) && argon2_accepts(pepper, password, stored)
}

/// An Argon2id hasher (version 19, default costs) keyed with a pepper.
pub struct PepperedArgon2<'k> {
    pepper: &'k [u8],
    engine: argon2::Argon2<'k>,
}

impl<'k> PepperedArgon2<'k> {
    /// The pepper the hasher was keyed with.
    pub closed spec fn pepper(&self) -> Seq<u8> {
        self.pepper@
    }
}

/// A PHC string together with its parsed form.
pub struct StoredHash<'a> {
    text: &'a str,
    parsed: argon2::PasswordHash<'a>,
}

impl<'a> StoredHash<'a> {
    /// The text the hash was parsed from.
    pub closed spec fn text(&self) -> Seq<char> {
        self.text@
    }
}

/// `argon2::Argon2::new_with_secret` with Argon2id, version 0x13 and the default
/// parameters.
///
/// Claimed: it fails exactly when the pepper is longer than `MAX_INPUT_LEN`
/// bytes, and the hasher it gives is keyed with the pepper.
#[verifier::external_body]
fn argon2_with_pepper<'k>(pepper: &'k [u8]) -> (r: Result<PepperedArgon2<'k>, argon2::Error>)
    ensures
        r is Ok <==> pepper@.len() <= MAX_INPUT_LEN,
        r matches Ok(h) ==> h.pepper() == pepper@,
{
    match argon2::Argon2::new_with_secret(
        pepper,
        argon2::Algorithm::Argon2id,
        argon2::Version::V0x13,
        argon2::Params::default(),
    ) {
        Ok(engine) => Ok(PepperedArgon2 { pepper, engine }),
        Err(e) => Err(e),
    }
}

/// `argon2::password_hash::SaltString::generate` with the operating system's
/// random source: sixteen random bytes in unpadded Base64.
///
/// Claimed: the text has the shape of such an encoding. Which bytes it encodes
/// is left open.
#[verifier::external_body]
fn generate_salt() -> (s: String)
    ensures
        is_salt_text(s@),
{
    argon2::password_hash::SaltString::generate(&mut argon2::password_hash::rand_core::OsRng)
        .as_str()
        .to_string()
}

/// `PasswordHasher::hash_password` of the hasher, on the password's bytes and
/// the salt text, printed as a PHC string.
///
/// Claimed: with a salt as `generate_salt` makes, it fails exactly when the
/// password is longer than `MAX_INPUT_LEN` bytes; a result is the PHC head, the
/// salt, `$` and the forty-three character tag; and it parses back and is
/// accepted for the same password under the same pepper (verification recomputes
/// the tag from the parsed salt and parameters and compares).
#[verifier::external_body]
fn hash_with(h: &PepperedArgon2, password: &str, salt: &str) -> (r: Result<
    String,
    argon2::password_hash::Error,
>)
    ensures
        is_salt_text(salt@) ==> (r is Ok <==> utf8_len(password@) <= MAX_INPUT_LEN),
        r matches Ok(s) ==> s@ == phc_text(salt@, argon2id_tag(h.pepper(), password@, salt@)),
        r matches Ok(s) ==> argon2id_tag(h.pepper(), password@, salt@).len() == 43,
        r matches Ok(s) ==> phc_parses(s@),
        r matches Ok(s) ==> argon2_accepts(h.pepper(), password@, s@),
{
    let salt = argon2::password_hash::Salt::from_b64(salt)?;
    match h.engine.hash_password(password.as_bytes(), salt) {
        Ok(phc) => Ok(phc.to_string()),
        Err(e) => Err(e),
    }
}

/// `argon2::PasswordHash::new`: parses a PHC string.
///
/// Claimed: it succeeds exactly when the text parses, and keeps the text; an
/// empty text, or one whose first field (before the first `$`) is not empty,
/// does not parse.
#[verifier::external_body]
fn parse_stored<'a>(text: &'a str) -> (r: Result<StoredHash<'a>, argon2::password_hash::Error>)
    ensures
        r is Ok <==> phc_parses(text@),
        r is Ok ==> starts_like_phc(text@),
        r matches Ok(p) ==> p.text() == text@,
{
    match argon2::PasswordHash::new(text) {
        Ok(parsed) => Ok(StoredHash { text, parsed }),
        Err(e) => Err(e),
    }
}

/// `PasswordVerifier::verify_password` of the hasher, on the password's bytes
/// and a parsed PHC string, with success read as `true`.
///
/// Claimed: the answer is whether Argon2 keyed with the hasher's pepper accepts
/// the password against that text. For a text in the library's layout and a
/// password Argon2 takes, that is whether the stored tag is the tag of the
/// password under the pepper and the stored salt: verification recomputes the
/// output with the stored salt and the head's algorithm, version and costs at
/// the stored output's length (32 bytes), and compares it with the stored
/// output, whose Base64 text is canonical (non-canonical text does not parse).
#[verifier::external_body]
fn verify_with(h: &PepperedArgon2, password: &str, stored: &StoredHash) -> (ok: bool)
    ensures
        ok == argon2_accepts(h.pepper(), password@, stored.text()),
        (is_library_hash(stored.text()) && utf8_len(password@) <= MAX_INPUT_LEN) ==> (ok <==> hash_tag(
            stored.text(),
        ) == argon2id_tag(h.pepper(), password@, hash_salt(stored.text()))),
{
    h.engine.verify_password(password.as_bytes(), &stored.parsed).is_ok()
}

/// Hashes a password with Argon2id under the pepper and a fresh random salt.
///
/// It fails only where Argon2 refuses its inputs: a pepper or a password longer
/// than `MAX_INPUT_LEN` bytes. A hash is the PHC string of some sixteen-byte
/// salt and the tag of the password under the pepper and that salt, and the
/// password matches it under the same pepper.
pub fn hash_pass(word: &str, pepper: &[u8]) -> (r: Result<String, HashError>)
    ensures
        r is Ok <==> (pepper@.len() <= MAX_INPUT_LEN && utf8_len(word@) <= MAX_INPUT_LEN),
        r == Err::<String, HashError>(HashError::PepperTooLong) <==> pepper@.len() > MAX_INPUT_LEN,
        r matches Ok(h) ==> is_hash_of(h@, word@, pepper@),
        r matches Ok(h) ==> password_matches(h@, word@, pepper@),
{
    let hasher = match argon2_with_pepper(pepper) {
        Ok(hasher) => hasher,
        Err(_) => {
            return Err(HashError::PepperTooLong);
        },
    };
    let salt = generate_salt();
    match hash_with(&hasher, word, salt.as_str()) {
        Ok(h) => {
            assert(is_salt_text(salt@) && argon2id_tag(pepper@, word@, salt@).len() == 43 && h@ == phc_text(
                salt@,
                argon2id_tag(pepper@, word@, salt@),
            ));
            Ok(h)
        },
        Err(_) => Err(HashError::PasswordTooLong),
    }
}

/// Checks a password against a stored hash under the pepper: `false` where the
/// stored text is no PHC string, else whether Argon2 accepts the password.
///
/// A pepper that Argon2 refuses is left out where the stored text parses.
pub fn verify_hash(stored_hash: &str, password: &str, pepper: &[u8]) -> (ok: bool)
    requires
        phc_parses(stored_hash@) ==> pepper@.len() <= MAX_INPUT_LEN,
    ensures
        ok == password_matches(stored_hash@, password@, pepper@),
        ok ==> starts_like_phc(stored_hash@),
        (is_library_hash(stored_hash@) && utf8_len(password@) <= MAX_INPUT_LEN) ==> (ok <==> (
        phc_parses(stored_hash@) && hash_tag(stored_hash@) == argon2id_tag(
            pepper@,
            password@,
            hash_salt(stored_hash@),
        ))),
{
    let parsed = match parse_stored(stored_hash) {
        Ok(parsed) => parsed,
        Err(_) => {
            return false;
        },
    };
    let hasher = match argon2_with_pepper(pepper) {
        Ok(hasher) => hasher,
        Err(_) => {
            return false;
        },
    };
    verify_with(&hasher, password, &parsed)
}

/// What checking a password against a stored hash under a pepper answers on
/// every input: nothing where the stored text parses but the pepper is longer
/// than Argon2 takes, else whether the password matches.
pub open spec fn check_answer(stored: Seq<char>, password: Seq<char>, pepper: Seq<u8>) -> Option<bool> {
    if phc_parses(stored) && pepper.len() > MAX_INPUT_LEN {
        None
    } else {
        Some(password_matches(stored, password, pepper))
    }
}

/// Checking is a function of its inputs: two checks of the same stored hash,
/// password and pepper give the same answer.
pub proof fn lemma_check_is_deterministic(
    a: Option<bool>,
    b: Option<bool>,
    stored: Seq<char>,
    password: Seq<char>,
    pepper: Seq<u8>,
)
    requires
        a == check_answer(stored, password, pepper),
        b == check_answer(stored, password, pepper),
    ensures
        a == b,
{
}

/// `verify_hash` on every input: `None` exactly where the stored text parses
/// but the pepper is longer than Argon2 takes, else what `verify_hash` answers.
pub fn try_verify_hash(stored_hash: &str, password: &str, pepper: &[u8]) -> (r: Option<bool>)
    ensures
        r == check_answer(stored_hash@, password@, pepper@),
        r is None <==> (phc_parses(stored_hash@) && pepper@.len() > MAX_INPUT_LEN),
        r matches Some(ok) ==> ok == password_matches(stored_hash@, password@, pepper@),
        !starts_like_phc(stored_hash@) ==> r == Some(false),
{
    if pepper.len() <= MAX_INPUT_LEN {
        Some(verify_hash(stored_hash, password, pepper))
    } else {
        match parse_stored(stored_hash) {
            Ok(_) => None,
            Err(_) => Some(false),
        }
    }
}

} // verus!
