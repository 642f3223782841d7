//! Judging passwords: is one commonly used, has one been exposed in a
//! breach, and making new ones.
//!
//! Whether a password has been exposed is asked of a public service by the
//! range protocol: only the first five characters of the password's hash
//! leave the machine, and the service answers with the rest of every hash
//! that begins so. The answers are cached in the vault for 24 hours.

use crate::database::{Statement, StatementView};
use crate::secret::SecretValue;
use crate::text::push_char;
use sha1::Digest;
use vstd::prelude::*;
use vstd::string::StringExecFns;

verus! {

/// What is wrong with a password.
#[derive(Debug, PartialEq, Eq, Clone, Copy, Structural)]
pub enum PasswordProblem {
    /// It is on the list of common passwords.
    Common,
    /// It has appeared in a breach.
    Exposed,
    /// Nothing is known against it.
    NoProblem,
}

/// Whether `password` is on the list of common passwords that `passwords`
/// carries.
pub uninterp spec fn common_password(password: Seq<char>) -> bool;

/// The SHA-1 digest of `data`.
pub uninterp spec fn sha1(data: Seq<u8>) -> Seq<u8>;

/// Trusted: `passwords::analyzer::is_common_password`, a look-up in a fixed
/// table.
#[verifier::external_body]
fn is_common_password(password: &str) -> (common: bool)
    ensures
        common == common_password(password@),
{
    passwords::analyzer::is_common_password(password)
}

/// Trusted: `sha1::Sha1::digest`. A SHA-1 digest has 20 bytes.
#[verifier::external_body]
fn sha1_digest(data: &[u8]) -> (digest: Vec<u8>)
    ensures
        digest@ == sha1(data@),
        digest@.len() == 20,
{
    sha1::Sha1::digest(data).to_vec()
}

/// The upper-case hexadecimal digit of a value below 16.
pub open spec fn hex_digit(nibble: u8) -> char {
    if nibble < 10 {
        (48 + nibble) as u8 as char
    } else {
        (55 + nibble) as u8 as char
    }
}

/// `bytes` in upper-case hexadecimal, two digits for each byte.
pub open spec fn hex_upper(bytes: Seq<u8>) -> Seq<char>
    decreases bytes.len(),
{
    if bytes.len() == 0 {
        Seq::empty()
    } else {
        hex_upper(bytes.drop_last()).push(hex_digit(bytes.last() / 16)).push(
            hex_digit(bytes.last() % 16),
        )
    }
}

/// The hash by which a password is known to the breach cache and to the
/// service: its SHA-1 digest in upper-case hexadecimal.
pub open spec fn hash_of(password: Seq<char>) -> Seq<char> {
    hex_upper(sha1(vstd::utf8::encode_utf8(password)))
}

/// Number of characters of a hash that are sent to the service.
pub const PREFIX_LENGTH: usize = 5;

/// Where the service answers.
pub const RANGE_URL: &'static str = "https://api.pwnedpasswords.com/range/";

proof fn lemma_hex_upper(bytes: Seq<u8>)
    ensures
        hex_upper(bytes).len() == 2 * bytes.len(),
        vstd::utf8::is_ascii_chars(hex_upper(bytes)),
    decreases bytes.len(),
{
    if bytes.len() > 0 {
        lemma_hex_upper(bytes.drop_last());
        let a = hex_digit(bytes.last() / 16);
        let b = hex_digit(bytes.last() % 16);
        assert('\0' <= a <= '\u{7f}');
        assert('\0' <= b <= '\u{7f}');
    }
}

fn digit(nibble: u8) -> (c: char)
    requires
        nibble < 16,
    ensures
        c == hex_digit(nibble),
{
    if nibble < 10 {
        (48 + nibble) as char
    } else {
        (55 + nibble) as char
    }
}

fn hex(bytes: &Vec<u8>) -> (text: String)
    ensures
        text@ == hex_upper(bytes@),
{
    let mut text = String::new();
    let mut i: usize = 0;
    while i < bytes.len()
        invariant
            i <= bytes.len(),
            text@ == hex_upper(bytes@.subrange(0, i as int)),
        decreases bytes.len() - i,
    {
        let byte = bytes[i];
        proof {
            let upto = bytes@.subrange(0, i + 1);
            assert(upto.drop_last() =~= bytes@.subrange(0, i as int));
            assert(upto.last() == byte);
        }
        push_char(&mut text, digit(byte / 16));
        push_char(&mut text, digit(byte % 16));
        i += 1;
    }
    assert(bytes@.subrange(0, bytes.len() as int) =~= bytes@);
    text
}

/// The hash of a password: 40 hexadecimal digits in upper case.
#[derive(Debug, PartialEq)]
pub struct PasswordHash {
    hex: SecretValue,
}

impl View for PasswordHash {
    type V = Seq<char>;

    closed spec fn view(&self) -> Seq<char> {
        self.hex@
    }
}

impl PasswordHash {
    #[verifier::type_invariant]
    closed spec fn shaped(&self) -> bool {
        self.hex@.len() == 40 && vstd::utf8::is_ascii_chars(self.hex@)
    }

    /// Hashes `password`.
    pub fn of(password: &str) -> (hash: PasswordHash)
        ensures
            hash@ == hash_of(password@),
            hash@.len() == 40,
    {
        let digest = sha1_digest(password.as_bytes());
        proof {
            lemma_hex_upper(digest@);
        }
        PasswordHash { hex: SecretValue::new(hex(&digest)) }
    }

    /// The whole hash, the key of the breach cache.
    pub fn as_str(&self) -> (text: &str)
        ensures
            text@ == self@,
            text@.len() == 40,
    {
        proof {
            use_type_invariant(self);
        }
        self.hex.expose_secret()
    }

    /// The part of the hash that is sent to the service: its first five
    /// characters.
    pub fn prefix(&self) -> (prefix: &str)
        ensures
            prefix@ == self@.subrange(0, PREFIX_LENGTH as int),
    {
        proof {
            use_type_invariant(self);
        }
        self.hex.expose_secret().substring_ascii(0, PREFIX_LENGTH)
    }

    /// The part of the hash that is looked for in the answer of the
    /// service: all but its first five characters.
    pub fn suffix(&self) -> (suffix: &str)
        ensures
            suffix@ == self@.subrange(PREFIX_LENGTH as int, 40),
    {
        proof {
            use_type_invariant(self);
        }
        self.hex.expose_secret().substring_ascii(PREFIX_LENGTH, 40)
    }

    /// The address at which the service is asked about this hash.
    pub fn range_url(&self) -> (url: String)
        ensures
            url@ == RANGE_URL@ + self@.subrange(0, PREFIX_LENGTH as int),
    {
        let mut url = String::from_str(RANGE_URL);
        url.append(self.prefix());
        url
    }
}

/// Where the line that holds the byte at `from` ends: at the next line
/// feed, or at the end of the text.
pub open spec fn line_end(bytes: Seq<u8>, from: int) -> int
    decreases bytes.len() - from,
{
    if from >= bytes.len() {
        bytes.len() as int
    } else if bytes[from] == 10 {
        from
    } else {
        line_end(bytes, from + 1)
    }
}

/// Whether a line begins at `at`: at the start of the text, or after a line
/// feed, but not at the end of the text.
pub open spec fn begins_line(bytes: Seq<u8>, at: int) -> bool {
    0 <= at < bytes.len() && (at == 0 || bytes[at - 1] == 10)
}

/// The line that begins at `start`, without its line feed, and without the
/// carriage return before the line feed where there is one.
pub open spec fn line_at(bytes: Seq<u8>, start: int) -> Seq<u8> {
    let end = line_end(bytes, start);
    if end < bytes.len() && start < end && bytes[end - 1] == 13 {
        bytes.subrange(start, end - 1)
    } else {
        bytes.subrange(start, end)
    }
}

/// Whether some line of `bytes` starts with `prefix`.
pub open spec fn some_line_starts_with(bytes: Seq<u8>, prefix: Seq<u8>) -> bool {
    exists|at: int| begins_line(bytes, at) && prefix.is_prefix_of(#[trigger] line_at(bytes, at))
}

proof fn lemma_line_end(bytes: Seq<u8>, from: int, to: int)
    requires
        0 <= from <= to <= bytes.len(),
        forall|j: int| from <= j < to ==> bytes[j] != 10,
        to == bytes.len() || bytes[to] == 10,
    ensures
        line_end(bytes, from) == to,
    decreases to - from,
{
    if from < to {
        lemma_line_end(bytes, from + 1, to);
    }
}

fn starts_with(bytes: &[u8], start: usize, stop: usize, prefix: &[u8]) -> (yes: bool)
    requires
        start <= stop <= bytes@.len(),
    ensures
        yes == prefix@.is_prefix_of(bytes@.subrange(start as int, stop as int)),
{
    let m = prefix.len();
    if m > stop - start {
        return false;
    }
    let ghost line = bytes@.subrange(start as int, stop as int);
    let mut k: usize = 0;
    while k < m
        invariant
            k <= m,
            m == prefix@.len(),
            m <= stop - start,
            start <= stop <= bytes@.len(),
            line == bytes@.subrange(start as int, stop as int),
            forall|j: int| 0 <= j < k ==> prefix@[j] == line[j],
        decreases m - k,
    {
        if bytes[start + k] != prefix[k] {
            assert(line[k as int] != prefix@[k as int]);
            assert(line.subrange(0, m as int)[k as int] != prefix@[k as int]);
            return false;
        }
        k += 1;
    }
    assert(line.subrange(0, m as int) =~= prefix@);
    true
}

/// Whether the answer of the service lists the hash that ends in `suffix`:
/// whether one of its lines starts with `suffix`.
pub fn is_listed(answer: &str, suffix: &str) -> (listed: bool)
    ensures
        listed == some_line_starts_with(
            vstd::utf8::encode_utf8(answer@),
            vstd::utf8::encode_utf8(suffix@),
        ),
{
    let bytes = answer.as_bytes();
    let prefix = suffix.as_bytes();
    let n = bytes.len();
    let mut start: usize = 0;
    while start < n
        invariant
            n == bytes@.len(),
            bytes@ == vstd::utf8::encode_utf8(answer@),
            prefix@ == vstd::utf8::encode_utf8(suffix@),
            start <= n,
            start == n || begins_line(bytes@, start as int),
            forall|at: int|
                0 <= at < start && begins_line(bytes@, at) ==> !prefix@.is_prefix_of(
                    #[trigger] line_at(bytes@, at),
                ),
        decreases n - start,
    {
        let mut end: usize = start;
        while end < n && bytes[end] != 10u8
            invariant
                n == bytes@.len(),
                start <= end <= n,
                forall|j: int| start <= j < end ==> bytes@[j] != 10,
            decreases n - end,
        {
            end += 1;
        }
        proof {
            lemma_line_end(bytes@, start as int, end as int);
        }
        let stop = if end < n && start < end && bytes[end - 1] == 13u8 {
            end - 1
        } else {
            end
        };
        assert(line_at(bytes@, start as int) == bytes@.subrange(start as int, stop as int));
        if starts_with(bytes, start, stop, prefix) {
            return true;
        }
        if end == n {
            assert forall|at: int| 0 <= at < n && begins_line(bytes@, at) implies !prefix@
                .is_prefix_of(#[trigger] line_at(bytes@, at)) by {
                if at > start {
                    assert(bytes@[at - 1] != 10);
                }
            }
            return false;
        }
        assert forall|at: int| 0 <= at < end + 1 && begins_line(bytes@, at) implies !prefix@
            .is_prefix_of(#[trigger] line_at(bytes@, at)) by {
            if at > start {
                assert(bytes@[at - 1] != 10);
            }
        }
        start = end + 1;
    }
    false
}

/// What to do next while a password is judged.
#[derive(Debug, PartialEq)]
pub enum Inquiry {
    /// The judgement is in.
    Judged(PasswordProblem),
    /// Look the hash up in the breach cache, by this statement.
    AskCache(PasswordHash, Statement),
    /// Ask the service at this address, after taking the single permit for
    /// such requests.
    AskService(PasswordHash, String),
}

/// The judgement that follows from a verdict on exposure.
pub open spec fn judged(exposed: bool) -> PasswordProblem {
    if exposed {
        PasswordProblem::Exposed
    } else {
        PasswordProblem::NoProblem
    }
}

/// Begins to judge `password`. A common password is judged at once, and
/// nothing of it leaves this function; any other is looked up in the breach
/// cache by its hash.
pub fn check_password(password: &str) -> (next: Inquiry)
    ensures
        match next {
            Inquiry::Judged(problem) => common_password(password@) && problem
                == PasswordProblem::Common,
            Inquiry::AskCache(hash, statement) => !common_password(password@) && hash@
                == hash_of(password@) && statement@ == (StatementView::BreachStatus {
                hash: hash@,
            }),
            Inquiry::AskService(_, _) => false,
        },
{
    if is_common_password(password) {
        return Inquiry::Judged(PasswordProblem::Common);
    }
    let hash = PasswordHash::of(password);
    let statement = Statement::BreachStatus { hash: String::from_str(hash.as_str()) };
    Inquiry::AskCache(hash, statement)
}

/// Goes on with what the breach cache holds for `hash`: a cached verdict
/// is the judgement; without one the service is asked.
pub fn after_cache(hash: PasswordHash, cached: Option<bool>) -> (next: Inquiry)
    ensures
        match next {
            Inquiry::Judged(problem) => cached matches Some(exposed) && problem == judged(
                exposed,
            ),
            Inquiry::AskService(same, url) => cached is None && same@ == hash@ && url@
                == RANGE_URL@ + hash@.subrange(0, PREFIX_LENGTH as int),
            Inquiry::AskCache(_, _) => false,
        },
{
    match cached {
        Some(true) => Inquiry::Judged(PasswordProblem::Exposed),
        Some(false) => Inquiry::Judged(PasswordProblem::NoProblem),
        None => {
            let url = hash.range_url();
            Inquiry::AskService(hash, url)
        },
    }
}

/// Ends with the answer of the service for `hash`, received at the time
/// `now` (seconds since the Unix epoch): the judgement, and the statement
/// that notes the verdict in the breach cache.
pub fn after_service(hash: &PasswordHash, answer: &str, now: i64) -> (end: (
    PasswordProblem,
    Statement,
))
    ensures
        ({
            let exposed = some_line_starts_with(
                vstd::utf8::encode_utf8(answer@),
                vstd::utf8::encode_utf8(hash@.subrange(PREFIX_LENGTH as int, 40)),
            );
            &&& end.0 == judged(exposed)
            &&& end.1@ == (StatementView::CacheBreach { hash: hash@, exposed, checked: now })
        }),
{
    let exposed = is_listed(answer, hash.suffix());
    let problem = if exposed {
        PasswordProblem::Exposed
    } else {
        PasswordProblem::NoProblem
    };
    let note = Statement::CacheBreach {
        hash: String::from_str(hash.as_str()),
        exposed,
        checked: now,
    };
    (problem, note)
}

/// The kinds of characters that a new password is made of.
#[derive(Debug, PartialEq, Eq, Clone, Copy, Structural)]
pub struct Alphabet {
    pub numbers: bool,
    pub lowercase_letters: bool,
    pub uppercase_letters: bool,
    pub symbols: bool,
    pub spaces: bool,
}

/// The punctuation of ASCII.
pub open spec fn is_symbol(c: char) -> bool {
    '!' <= c <= '/' || ':' <= c <= '@' || '[' <= c <= '`' || '{' <= c <= '~'
}

impl Alphabet {
    /// How many kinds of characters are in the alphabet.
    pub open spec fn kinds(self) -> nat {
        let numbers: nat = if self.numbers { 1 } else { 0 };
        let lowercase: nat = if self.lowercase_letters { 1 } else { 0 };
        let uppercase: nat = if self.uppercase_letters { 1 } else { 0 };
        let symbols: nat = if self.symbols { 1 } else { 0 };
        let spaces: nat = if self.spaces { 1 } else { 0 };
        numbers + lowercase + uppercase + symbols + spaces
    }

    /// Whether `c` is in the alphabet.
    pub open spec fn holds(self, c: char) -> bool {
        ||| self.numbers && '0' <= c <= '9'
        ||| self.lowercase_letters && 'a' <= c <= 'z'
        ||| self.uppercase_letters && 'A' <= c <= 'Z'
        ||| self.symbols && is_symbol(c)
        ||| self.spaces && c == ' '
    }

    /// Whether `text` has a character of every kind of the alphabet.
    pub open spec fn covered_by(self, text: Seq<char>) -> bool {
        &&& self.numbers ==> exists|i: int| 0 <= i < text.len() && '0' <= #[trigger] text[i] <= '9'
        &&& self.lowercase_letters ==> exists|i: int|
            0 <= i < text.len() && 'a' <= #[trigger] text[i] <= 'z'
        &&& self.uppercase_letters ==> exists|i: int|
            0 <= i < text.len() && 'A' <= #[trigger] text[i] <= 'Z'
        &&& self.symbols ==> exists|i: int| 0 <= i < text.len() && is_symbol(#[trigger] text[i])
        &&& self.spaces ==> exists|i: int| 0 <= i < text.len() && #[trigger] text[i] == ' '
    }

    /// Why no password of `length` characters can be made of the alphabet,
    /// strictly (with every kind in it) or not.
    pub open spec fn fault(self, length: usize, strict: bool) -> Option<Seq<char>> {
        if length == 0 {
            Some("The length of passwords cannot be 0."@)
        } else if self.kinds() == 0 {
            Some("You need to enable at least one kind of characters."@)
        } else if strict && length < self.kinds() {
            Some("The length of passwords is too short."@)
        } else {
            None
        }
    }

    /// What a password of `length` characters made of the alphabet looks
    /// like.
    pub open spec fn makes(self, password: Seq<char>, length: usize, strict: bool) -> bool {
        &&& password.len() == length
        &&& forall|i: int| 0 <= i < password.len() ==> self.holds(#[trigger] password[i])
        &&& strict ==> self.covered_by(password)
    }
}

/// Trusted: `passwords::PasswordGenerator::generate_one`. It refuses a
/// length of 0, an empty alphabet, and, when strict, a length below the
/// number of kinds, with a message for each; otherwise it draws characters
/// from the alphabet at random, and, when strict, draws again until every
/// kind occurs. Where characters that look alike are excluded, it draws
/// from fewer characters of each kind. Which password comes out is not
/// known.
#[verifier::external_body]
fn generate_one(
    length: usize,
    alphabet: Alphabet,
    exclude_similar_characters: bool,
    strict: bool,
) -> (made: Result<String, &'static str>)
    ensures
        match made {
            Ok(password) => alphabet.fault(length, strict) is None && alphabet.makes(
                password@,
                length,
                strict,
            ),
            Err(message) => alphabet.fault(length, strict) == Some(message@),
        },
{
    passwords::PasswordGenerator {
        length,
        numbers: alphabet.numbers,
        lowercase_letters: alphabet.lowercase_letters,
        uppercase_letters: alphabet.uppercase_letters,
        symbols: alphabet.symbols,
        spaces: alphabet.spaces,
        exclude_similar_characters,
        strict,
    }.generate_one()
}

/// The alphabet of the passwords that this crate makes: the chosen kinds,
/// and never a space.
pub open spec fn chosen(
    numbers: bool,
    uppercase_letters: bool,
    lowercase_letters: bool,
    symbols: bool,
) -> Alphabet {
    Alphabet { numbers, lowercase_letters, uppercase_letters, symbols, spaces: false }
}

/// Makes a password of `length` characters at random, with at least one
/// character of every chosen kind and none of any other. Characters that
/// look alike are not excluded. Fails, with the
/// message to show, exactly where no such password exists: the length is 0,
/// no kind is chosen, or more kinds are chosen than the length has room for.
pub fn generate_password(
    length: usize,
    numbers: bool,
    uppercase_letters: bool,
    lowercase_letters: bool,
    symbols: bool,
) -> (made: Result<SecretValue, &'static str>)
    ensures
        ({
            let alphabet = chosen(numbers, uppercase_letters, lowercase_letters, symbols);
            match made {
                Ok(password) => alphabet.fault(length, true) is None && alphabet.makes(
                    password@,
                    length,
                    true,
                ),
                Err(message) => alphabet.fault(length, true) == Some(message@),
            }
        }),
{
    let alphabet = Alphabet {
        numbers,
        lowercase_letters,
        uppercase_letters,
        symbols,
        spaces: false,
    };
    match generate_one(length, alphabet, false, true) {
        Ok(password) => Ok(SecretValue::new(password)),
        Err(message) => Err(message),
    }
}

} // verus!
