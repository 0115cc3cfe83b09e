//! The validated name of a subscriber.
//!
//! A raw name is accepted only when it still holds something after
//! trimming surrounding whitespace, stays within the length cap, and
//! contains none of a small set of forbidden characters. The value kept
//! is the trimmed string; construction is the only way to obtain one.

use vstd::prelude::*;

verus! {

/// The most characters a subscriber name may hold.
pub const NAME_LENGTH_CAP: usize = 256;

/// The whitespace characters stripped from the ends of a raw name.
pub open spec fn is_space(c: char) -> bool {
    c == ' ' || c == '\t' || c == '\n' || c == '\r'
}

/// Characters a subscriber name must never contain.
pub open spec fn is_forbidden_char(c: char) -> bool {
    ||| c == '/'
    ||| c == '('
    ||| c == ')'
    ||| c == '"'
    ||| c == '<'
    ||| c == '>'
    ||| c == '\\'
    ||| c == '{'
    ||| c == '}'
}

/// The sequence with leading whitespace removed.
pub open spec fn spec_trim_front(s: Seq<char>) -> Seq<char>
    decreases s.len(),
{
    if s.len() > 0 && is_space(s[0]) {
        spec_trim_front(s.skip(1))
    } else {
        s
    }
}

/// The sequence with trailing whitespace removed.
pub open spec fn spec_trim_back(s: Seq<char>) -> Seq<char>
    decreases s.len(),
{
    if s.len() > 0 && is_space(s.last()) {
        spec_trim_back(s.drop_last())
    } else {
        s
    }
}

/// The sequence with whitespace removed from both ends.
pub open spec fn spec_trim(s: Seq<char>) -> Seq<char> {
    spec_trim_back(spec_trim_front(s))
}

/// A raw name is accepted when it is not blank, does not exceed the
/// length cap, and holds no forbidden character.
pub open spec fn valid_name_input(s: Seq<char>) -> bool {
    &&& spec_trim(s).len() > 0
    &&& s.len() <= NAME_LENGTH_CAP
    &&& forall|i: int| 0 <= i < s.len() ==> !is_forbidden_char(#[trigger] s[i])
}

proof fn lemma_trim_front_is_skip(s: Seq<char>, i: int)
    requires
        0 <= i <= s.len(),
        forall|k: int| 0 <= k < i ==> is_space(#[trigger] s[k]),
        i < s.len() ==> !is_space(s[i]),
    ensures
        spec_trim_front(s) == s.skip(i),
    decreases i,
{
    if i == 0 {
        assert(s.skip(0) =~= s);
    } else {
        lemma_trim_front_is_skip(s.skip(1), i - 1);
        assert(s.skip(1).skip(i - 1) =~= s.skip(i));
    }
}

proof fn lemma_trim_back_is_take(s: Seq<char>, j: int)
    requires
        0 <= j <= s.len(),
        forall|k: int| j <= k < s.len() ==> is_space(#[trigger] s[k]),
        j > 0 ==> !is_space(s[j - 1]),
    ensures
        spec_trim_back(s) == s.take(j),
    decreases s.len() - j,
{
    if j == s.len() as int {
        // The last character, if any, is not a space, so nothing is cut.
        assert(s.take(j) =~= s);
    } else {
        assert(is_space(s[s.len() - 1]));
        lemma_trim_back_is_take(s.drop_last(), j);
        assert(s.drop_last() =~= s.take(s.len() - 1));
        assert(s.drop_last().take(j) =~= s.take(j));
    }
}

/// Trimming a sequence whose ends are already free of whitespace leaves
/// it unchanged.
proof fn lemma_trim_of_trimmed(s: Seq<char>)
    requires
        s.len() > 0,
        !is_space(s[0]),
        !is_space(s.last()),
    ensures
        spec_trim(s) == s,
{
    assert(spec_trim_front(s) == s);
    assert(spec_trim_back(s) == s);
}

/// The name of a subscriber: a trimmed, non-blank string within the
/// length cap, free of forbidden characters.
#[derive(Debug)]
pub struct SubscriberName {
    name: String,
}

impl View for SubscriberName {
    type V = Seq<char>;

    closed spec fn view(&self) -> Seq<char> {
        self.name@
    }
}

impl SubscriberName {
    /// Every constructed name is its own trimming, non-empty, within the
    /// cap, and free of forbidden characters.
    pub open spec fn wf(&self) -> bool {
        &&& self@ == spec_trim(self@)
        &&& 0 < self@.len() <= NAME_LENGTH_CAP
        &&& forall|i: int| 0 <= i < self@.len() ==> !is_forbidden_char(#[trigger] self@[i])
    }

    /// Validates a raw subscriber name. Succeeds exactly on inputs that
    /// are not blank, do not exceed the length cap and hold no forbidden
    /// character; the value kept is the input with surrounding
    /// whitespace removed.
    pub fn parse(s: String) -> (r: Result<SubscriberName, String>)
        ensures
            r is Ok <==> valid_name_input(s@),
            r matches Ok(name) ==> name@ == spec_trim(s@) && name.wf(),
            r matches Err(m) ==> m@ == s@ + " is not a valid subscriber name."@,
    {
        let n = s.as_str().unicode_len();
        let mut i: usize = 0;
        while i < n && is_space_char(s.as_str().get_char(i))
            invariant
                0 <= i <= n,
                n == s@.len(),
                forall|k: int| 0 <= k < i ==> is_space(#[trigger] s@[k]),
            decreases n - i,
        {
            i = i + 1;
        }
        proof {
            lemma_trim_front_is_skip(s@, i as int);
        }
        if i == n {
            // Blank: empty or whitespace only.
            proof {
                assert(spec_trim_front(s@) =~= Seq::<char>::empty());
                assert(spec_trim(s@).len() == 0);
            }
            return Err(invalid_name_message(&s));
        }
        let mut j: usize = n;
        while j > i && is_space_char(s.as_str().get_char(j - 1))
            invariant
                i <= j <= n,
                n == s@.len(),
                i < n,
                !is_space(s@[i as int]),
                forall|k: int| j <= k < n ==> is_space(#[trigger] s@[k]),
            decreases j,
        {
            j = j - 1;
        }
        proof {
            // The scan cannot stop at j == i because s@[i] is not a space.
            assert(j > i);
            assert(forall|k: int|
                j - i <= k < s@.skip(i as int).len() ==> is_space(#[trigger] s@.skip(i as int)[k]));
            assert(s@.skip(i as int)[j - i - 1] == s@[j - 1]);
            lemma_trim_back_is_take(s@.skip(i as int), j - i);
            assert(spec_trim(s@) == s@.skip(i as int).take(j - i));
            assert(s@.skip(i as int).take(j - i) =~= s@.subrange(i as int, j as int));
            assert(spec_trim(s@).len() > 0);
        }
        if n > NAME_LENGTH_CAP {
            return Err(invalid_name_message(&s));
        }
        let mut k: usize = 0;
        while k < n
            invariant
                0 <= k <= n,
                n == s@.len(),
                forall|p: int| 0 <= p < k ==> !is_forbidden_char(#[trigger] s@[p]),
            decreases n - k,
        {
            if is_forbidden(s.as_str().get_char(k)) {
                return Err(invalid_name_message(&s));
            }
            k = k + 1;
        }
        let trimmed = s.as_str().substring_char(i, j);
        let name = SubscriberName { name: trimmed.to_owned() };
        proof {
            assert(name@ == spec_trim(s@));
            assert(name@[0] == s@[i as int]);
            assert(name@.last() == s@[j - 1]);
            lemma_trim_of_trimmed(name@);
            assert(forall|p: int|
                0 <= p < name@.len() ==> !is_forbidden_char(#[trigger] name@[p])) by {
                assert(forall|p: int|
                    0 <= p < name@.len() ==> name@[p] == s@[p + i]);
            }
        }
        Ok(name)
    }

    /// The name as a string slice, for storage and transmission.
    pub fn as_str(&self) -> (r: &str)
        ensures
            r@ == self@,
    {
        self.name.as_str()
    }
}

/// Whether the character is whitespace stripped by name validation.
fn is_space_char(c: char) -> (r: bool)
    ensures
        r == is_space(c),
{
    c == ' ' || c == '\t' || c == '\n' || c == '\r'
}

/// Whether the character is forbidden in a subscriber name.
fn is_forbidden(c: char) -> (r: bool)
    ensures
        r == is_forbidden_char(c),
{
    c == '/' || c == '(' || c == ')' || c == '"' || c == '<' || c == '>' || c == '\\' || c == '{'
        || c == '}'
}

/// The rejection message for an invalid raw name.
fn invalid_name_message(s: &String) -> (r: String)
    ensures
        r@ == s@ + " is not a valid subscriber name."@,
{
    let mut r = s.clone();
    r.append(" is not a valid subscriber name.");
    r
}

} // verus!
