use vstd::prelude::*;
use crate::errors::{NameError, RecordRequestError, RecordRequestErrorType};
use crate::random::choose_multiple_chars;
use crate::text::{lowercase, string_of_chars, to_lowercase};

verus! {

/// The key a name is checked, stored and found under: the name in lowercase.
pub open spec fn record_key(name: Seq<char>) -> Seq<char> {
    lowercase(name)
}

/// Whether a character is one of `a`..`z` or `0`..`9`.
pub open spec fn is_alphabet_char(c: char) -> bool {
    (0x61 <= (c as u32) && (c as u32) <= 0x7a) || (0x30 <= (c as u32) && (c as u32) <= 0x39)
}

/// The alphabet of generated names: `a`..`z` followed by `0`..`9`.
pub open spec fn name_alphabet() -> Seq<char> {
    Seq::new(36, |i: int| if i < 26 { (0x61 + i) as char } else { (0x30 + i - 26) as char })
}

/// A generated name: three different characters of the alphabet.
pub open spec fn is_generated_name(name: Seq<char>) -> bool {
    &&& name.len() == 3
    &&& name.no_duplicates()
    &&& forall|i: int| 0 <= i < name.len() ==> is_alphabet_char(#[trigger] name[i])
}

/// A character that a requested name may hold: an ASCII letter or digit, `.`, `_` or `-`.
pub open spec fn is_name_char(c: char) -> bool {
    ||| (0x30 <= (c as u32) && (c as u32) <= 0x39)
    ||| (0x61 <= (c as u32) && (c as u32) <= 0x7a)
    ||| (0x41 <= (c as u32) && (c as u32) <= 0x5a)
    ||| c == '.'
    ||| c == '_'
    ||| c == '-'
}

/// Whether a whole text matches `^[0-9a-zA-Z._\-]+$`.
pub open spec fn matches_name_pattern(name: Seq<char>) -> bool {
    &&& name.len() > 0
    &&& forall|i: int| 0 <= i < name.len() ==> is_name_char(#[trigger] name[i])
}

/// Why a requested name is refused.
#[derive(Debug, Clone, Copy, PartialEq, Eq, Structural)]
pub enum NameRefusal {
    /// The store already holds a record under the name.
    Used,
    /// The name has fewer than three characters.
    TooShort,
    /// The name holds a character outside `[0-9a-zA-Z._-]`.
    InvalidCharacters,
}

/// The message a refusal is reported with.
pub open spec fn refusal_message(r: NameRefusal) -> Seq<char> {
    match r {
        NameRefusal::Used => "This name is used"@,
        NameRefusal::TooShort => "Name is too short"@,
        NameRefusal::InvalidCharacters => "Name contains invalid characters"@,
    }
}

impl NameRefusal {
    /// The message of the refusal.
    pub fn message(&self) -> (message: &'static str)
        ensures
            message@ == refusal_message(*self),
    {
        match self {
            NameRefusal::Used => "This name is used",
            NameRefusal::TooShort => "Name is too short",
            NameRefusal::InvalidCharacters => "Name contains invalid characters",
        }
    }

    /// The refusal as the error of a record request.
    pub fn to_record_error(&self) -> (e: RecordRequestError)
        ensures
            e@ == (RecordRequestErrorType::Name, refusal_message(*self)),
    {
        RecordRequestError::new(RecordRequestErrorType::Name, String::from_str(self.message()))
    }

    /// The refusal as a name error.
    pub fn to_name_error(&self) -> (e: NameError)
        ensures
            e@ == refusal_message(*self),
    {
        NameError::new(self.message())
    }
}

/// What becomes of a requested (non-empty) name once the store has said whether
/// it is taken: the checks run in this order, and the first that fails decides.
pub open spec fn requested_verdict(name: Seq<char>, used: bool) -> Result<Seq<char>, NameRefusal> {
    if used {
        Err(NameRefusal::Used)
    } else if name.len() < 3 {
        Err(NameRefusal::TooShort)
    } else if !matches_name_pattern(name) {
        Err(NameRefusal::InvalidCharacters)
    } else {
        Ok(name)
    }
}

/// What becomes of a pending name once the store has answered: `None` when a
/// taken generated name must be replaced by a fresh one, else the final result
/// (the accepted name, or the message of the refusal).
pub open spec fn name_verdict(generated: bool, name: Seq<char>, used: bool) -> Option<
    Result<Seq<char>, NameRefusal>,
> {
    if generated {
        if used {
            None
        } else {
            Some(Ok(name))
        }
    } else {
        Some(requested_verdict(name, used))
    }
}

/// A name result with the name read as text.
pub open spec fn name_result_view(r: Result<String, NameRefusal>) -> Result<Seq<char>, NameRefusal> {
    match r {
        Ok(name) => Ok(name@),
        Err(e) => Err(e),
    }
}

proof fn lemma_alphabet()
    ensures
        name_alphabet().no_duplicates(),
        forall|c: char| name_alphabet().contains(c) ==> is_alphabet_char(c),
{
    let a = name_alphabet();
    assert forall|i: int, j: int| 0 <= i < a.len() && 0 <= j < a.len() && i != j implies a[i]
        != a[j] by {
        assert(a[i] as u32 as int == (if i < 26 { 0x61 + i } else { 0x30 + i - 26 }));
        assert(a[j] as u32 as int == (if j < 26 { 0x61 + j } else { 0x30 + j - 26 }));
    }
    assert forall|c: char| a.contains(c) implies is_alphabet_char(c) by {
        let i = choose|i: int| 0 <= i < a.len() && a[i] == c;
        assert(a[i] as u32 as int == (if i < 26 { 0x61 + i } else { 0x30 + i - 26 }));
    }
}

/// The alphabet of generated names, in order.
fn alphabet() -> (chars: Vec<char>)
    ensures
        chars@ == name_alphabet(),
{
    let mut chars: Vec<char> = Vec::new();
    for i in 0..26u8
        invariant
            chars@.len() == i,
            forall|k: int| 0 <= k < i ==> chars@[k] == name_alphabet()[k],
    {
        chars.push((0x61u8 + i) as char);
    }
    for i in 0..10u8
        invariant
            chars@.len() == 26 + i,
            forall|k: int| 0 <= k < 26 + i ==> chars@[k] == name_alphabet()[k],
    {
        chars.push((0x30u8 + i) as char);
    }
    assert(chars@ =~= name_alphabet());
    chars
}

/// A fresh random name: three different characters of the alphabet.
pub fn gen_name() -> (name: String)
    ensures
        is_generated_name(name@),
{
    let picked = choose_multiple_chars(alphabet(), 3);
    proof {
        lemma_alphabet();
        assert forall|i: int| 0 <= i < picked@.len() implies is_alphabet_char(
            #[trigger] picked@[i],
        ) by {
            assert(name_alphabet().contains(picked@[i]));
        }
    }
    string_of_chars(&picked)
}

/// Whether a character may appear in a requested name.
pub fn is_name_char_exec(c: char) -> (ok: bool)
    ensures
        ok == is_name_char(c),
{
    let u = c as u32;
    (0x30 <= u && u <= 0x39) || (0x61 <= u && u <= 0x7a) || (0x41 <= u && u <= 0x5a) || c == '.'
        || c == '_' || c == '-'
}

/// Whether a whole text matches `^[0-9a-zA-Z._\-]+$`.
pub fn is_valid_name_pattern(name: &str) -> (ok: bool)
    ensures
        ok == matches_name_pattern(name@),
{
    let n = name.unicode_len();
    if n == 0 {
        return false;
    }
    for i in 0..n
        invariant
            n == name@.len(),
            forall|k: int| 0 <= k < i ==> is_name_char(#[trigger] name@[k]),
    {
        let c = name.get_char(i);
        if !is_name_char_exec(c) {
            return false;
        }
    }
    true
}

/// Decides a requested name once the store has said whether it is taken.
pub fn check_requested_name(name: String, used: bool) -> (r: Result<String, NameRefusal>)
    ensures
        name_result_view(r) == requested_verdict(name@, used),
{
    if used {
        return Err(NameRefusal::Used);
    }
    if name.as_str().unicode_len() < 3 {
        return Err(NameRefusal::TooShort);
    }
    if !is_valid_name_pattern(name.as_str()) {
        return Err(NameRefusal::InvalidCharacters);
    }
    Ok(name)
}

/// A name waiting for the store to say whether it is taken: either the one the
/// client asked for, or one generated at random.
pub struct NameResolver {
    name: String,
    generated: bool,
}

impl View for NameResolver {
    /// Whether the name was generated, and the name.
    type V = (bool, Seq<char>);

    closed spec fn view(&self) -> (bool, Seq<char>) {
        (self.generated, self.name@)
    }
}

/// The result of feeding the store's answer to a resolver: either another name
/// to ask about, or the final outcome.
pub enum NameOutcome {
    Pending(NameResolver),
    Finished(Result<String, NameRefusal>),
}

impl NameResolver {
    #[verifier::type_invariant]
    spec fn well_formed(self) -> bool {
        &&& self.generated ==> is_generated_name(self.name@)
        &&& !self.generated ==> self.name@.len() > 0
    }

    /// Starts resolving the name of a new record. A missing or empty name is
    /// replaced by a generated one.
    pub fn start(name: Option<String>) -> (r: Self)
        ensures
            (name matches Some(n) && n@.len() > 0) ==> r@ == (false, name->0@),
            !(name matches Some(n) && n@.len() > 0) ==> r@.0 && is_generated_name(r@.1),
    {
        match name {
            Some(n) => {
                if n.as_str().is_empty() {
                    NameResolver { name: gen_name(), generated: true }
                } else {
                    NameResolver { name: n, generated: false }
                }
            },
            None => NameResolver { name: gen_name(), generated: true },
        }
    }

    /// The key under which the store is asked whether the pending name is taken:
    /// the name in lowercase.
    pub fn lookup_key(&self) -> (key: String)
        ensures
            key@ == record_key(self@.1),
    {
        to_lowercase(self.name.as_str())
    }

    /// Feeds the store's answer for the pending name.
    pub fn answer(self, used: bool) -> (out: NameOutcome)
        ensures
            self@.0 ==> is_generated_name(self@.1),
            !self@.0 ==> self@.1.len() > 0,
            name_verdict(self@.0, self@.1, used) is None ==> (out matches NameOutcome::Pending(
                next,
            ) && next@.0 && is_generated_name(next@.1)),
            name_verdict(self@.0, self@.1, used) matches Some(v) ==> (out matches NameOutcome::Finished(
                r,
            ) && name_result_view(r) == v),
    {
        proof {
            use_type_invariant(&self);
        }
        let NameResolver { name, generated } = self;
        if generated {
            if used {
                NameOutcome::Pending(NameResolver { name: gen_name(), generated: true })
            } else {
                NameOutcome::Finished(Ok(name))
            }
        } else {
            NameOutcome::Finished(check_requested_name(name, used))
        }
    }
}

/// Every name the resolution hands out was reported free by the store, is at
/// least three characters long and matches `^[0-9a-zA-Z._\-]+$`; a generated
/// name is moreover made of three different characters of `a`..`z`, `0`..`9`.
pub proof fn lemma_accepted_names_are_valid(generated: bool, name: Seq<char>, used: bool)
    requires
        generated ==> is_generated_name(name),
        !generated ==> name.len() > 0,
    ensures
        name_verdict(generated, name, used) matches Some(Ok(n)) ==> {
            &&& n == name
            &&& !used
            &&& n.len() >= 3
            &&& matches_name_pattern(n)
            &&& generated ==> is_generated_name(n)
        },
{
    if generated && !used {
        assert forall|i: int| 0 <= i < name.len() implies is_name_char(#[trigger] name[i]) by {
            assert(is_alphabet_char(name[i]));
        }
    }
}

/// A generated name is never refused: it is accepted when free, and replaced by
/// a fresh one when taken.
pub proof fn lemma_generated_names_never_fail(name: Seq<char>, used: bool)
    requires
        is_generated_name(name),
    ensures
        used ==> name_verdict(true, name, used) is None,
        !used ==> name_verdict(true, name, used) == Some(Ok::<Seq<char>, NameRefusal>(name)),
{
}

/// A requested name that the store reports taken is refused as taken, whatever
/// its form; a free one is refused only for its form.
pub proof fn lemma_taken_check_comes_first(name: Seq<char>)
    ensures
        name_verdict(false, name, true) == Some(Err::<Seq<char>, NameRefusal>(NameRefusal::Used)),
        name_verdict(false, name, false) == Some(Err::<Seq<char>, NameRefusal>(NameRefusal::TooShort))
            <==> name.len() < 3,
        name_verdict(false, name, false) != Some(Err::<Seq<char>, NameRefusal>(NameRefusal::Used)),
{
}

/// The rule for a requested name, in full: refused as taken when the store holds
/// it; else refused as too short below three characters; else refused for its
/// characters when one of them is not an ASCII digit or letter, `.`, `_` or `-`;
/// else accepted exactly as written, whatever its length.
pub proof fn lemma_requested_name_rule(name: Seq<char>, used: bool)
    ensures
        used ==> requested_verdict(name, used) == Err::<Seq<char>, NameRefusal>(NameRefusal::Used),
        !used && name.len() < 3 ==> requested_verdict(name, used) == Err::<Seq<char>, NameRefusal>(
            NameRefusal::TooShort,
        ),
        !used && name.len() >= 3 && (exists|i: int|
            0 <= i < name.len() && !((0x30 <= (name[i] as u32) && (name[i] as u32) <= 0x39) || (
            0x41 <= (name[i] as u32) && (name[i] as u32) <= 0x5a) || (0x61 <= (name[i] as u32) && (
            name[i] as u32) <= 0x7a) || name[i] == '.' || name[i] == '_' || name[i] == '-'))
            ==> requested_verdict(name, used) == Err::<Seq<char>, NameRefusal>(
            NameRefusal::InvalidCharacters,
        ),
        !used && name.len() >= 3 && (forall|i: int|
            0 <= i < name.len() ==> ((0x30 <= (name[i] as u32) && (name[i] as u32) <= 0x39) || (0x41
            <= (name[i] as u32) && (name[i] as u32) <= 0x5a) || (0x61 <= (name[i] as u32) && (
            name[i] as u32) <= 0x7a) || name[i] == '.' || name[i] == '_' || name[i] == '-'))
            ==> requested_verdict(name, used) == Ok::<Seq<char>, NameRefusal>(name),
        name_verdict(false, name, used) == Some(requested_verdict(name, used)),
{
    if !used && name.len() >= 3 {
        if exists|i: int|
            0 <= i < name.len() && !((0x30 <= (name[i] as u32) && (name[i] as u32) <= 0x39) || (
            0x41 <= (name[i] as u32) && (name[i] as u32) <= 0x5a) || (0x61 <= (name[i] as u32) && (
            name[i] as u32) <= 0x7a) || name[i] == '.' || name[i] == '_' || name[i] == '-') {
            let i = choose|i: int|
                0 <= i < name.len() && !((0x30 <= (name[i] as u32) && (name[i] as u32) <= 0x39) || (
                0x41 <= (name[i] as u32) && (name[i] as u32) <= 0x5a) || (0x61 <= (name[i] as u32)
                && (name[i] as u32) <= 0x7a) || name[i] == '.' || name[i] == '_' || name[i] == '-');
            assert(!is_name_char(name[i]));
        }
    }
}

/// Generated names draw on the whole of `a`..`z` and `0`..`9`: the alphabet holds
/// 36 different characters, and a character is in it exactly when it is a
/// lowercase ASCII letter or an ASCII digit.
pub proof fn lemma_alphabet_is_complete(c: char)
    ensures
        name_alphabet().len() == 36,
        name_alphabet().no_duplicates(),
        name_alphabet().contains(c) <==> ((0x61 <= (c as u32) && (c as u32) <= 0x7a) || (0x30 <= (
        c as u32) && (c as u32) <= 0x39)),
{
    lemma_alphabet();
    let a = name_alphabet();
    if is_alphabet_char(c) {
        let u = c as u32 as int;
        let i = if u >= 0x61 { u - 0x61 } else { u - 0x30 + 26 };
        assert(a[i] as u32 as int == u);
        assert(a[i] == c);
    }
}

/// A generated name is three different characters, each a lowercase ASCII letter
/// or an ASCII digit.
pub proof fn lemma_generated_name_shape(name: Seq<char>)
    requires
        is_generated_name(name),
    ensures
        name.len() == 3,
        name[0] != name[1] && name[1] != name[2] && name[0] != name[2],
        forall|i: int|
            0 <= i < 3 ==> ((0x61 <= (name[i] as u32) && (name[i] as u32) <= 0x7a) || (0x30 <= (
            name[i] as u32) && (name[i] as u32) <= 0x39)),
{
    assert(is_alphabet_char(name[0]) && is_alphabet_char(name[1]) && is_alphabet_char(name[2]));
}

} // verus!
