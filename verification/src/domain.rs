//! Domain validation types: construct-or-reject wrappers that guarantee only
//! well-formed email addresses and display names flow downstream.

use vstd::prelude::*;

verus! {

/// Longest accepted subscriber name, counted in characters after trimming.
pub const MAX_SUBSCRIBER_NAME_CHARS: usize = 256;

/// Whitespace characters recognized by the validation rules: the Unicode
/// White_Space set, exactly the characters that string trimming removes.
pub open spec fn is_space(c: char) -> bool {
    ||| (0x09 <= c as u32 && c as u32 <= 0x0d)
    ||| c == ' '
    ||| c == '\u{85}'
    ||| c == '\u{a0}'
    ||| c == '\u{1680}'
    ||| (0x2000 <= c as u32 && c as u32 <= 0x200a)
    ||| c == '\u{2028}'
    ||| c == '\u{2029}'
    ||| c == '\u{202f}'
    ||| c == '\u{205f}'
    ||| c == '\u{3000}'
}

/// Characters a subscriber name may never contain, chosen to keep stored
/// and rendered names free of HTML/SQL delimiters. The denylist is exactly
/// these nine characters: no other character — control characters included —
/// is rejected on its own; downstream rendering is expected to cope with the
/// rest.
pub open spec fn forbidden_name_char(c: char) -> bool {
    ||| c == '/'
    ||| c == '('
    ||| c == ')'
    ||| c == '"'
    ||| c == '<'
    ||| c == '>'
    ||| c == '\\'
    ||| c == '{'
    ||| c == '}'
}

/// A string is blank when every character is whitespace; the empty string is blank.
pub open spec fn blank(s: Seq<char>) -> bool {
    forall|i: int| 0 <= i < s.len() ==> is_space(#[trigger] s[i])
}

pub open spec fn has_forbidden_char(s: Seq<char>) -> bool {
    exists|i: int| 0 <= i < s.len() && forbidden_name_char(#[trigger] s[i])
}

/// `f` and `l` delimit the non-blank core of `s`: every character before `f`
/// and after `l` is whitespace, and `s[f]`, `s[l]` are not. For a non-blank
/// string exactly one such pair exists, and `l - f + 1` is the length of `s`
/// with leading and trailing whitespace trimmed away.
pub open spec fn trim_bounds(s: Seq<char>, f: int, l: int) -> bool {
    &&& 0 <= f <= l < s.len()
    &&& !is_space(s[f])
    &&& !is_space(s[l])
    &&& forall|i: int| 0 <= i < f ==> is_space(#[trigger] s[i])
    &&& forall|i: int| l < i < s.len() ==> is_space(#[trigger] s[i])
}

/// The trimmed length of `s` exceeds the bound on subscriber names.
pub open spec fn name_too_long(s: Seq<char>) -> bool {
    exists|f: int, l: int| trim_bounds(s, f, l) && l - f + 1 > MAX_SUBSCRIBER_NAME_CHARS as int
}

/// A display name is valid when it is not blank, its trimmed length is within
/// the bound, and it contains no forbidden character.
pub open spec fn valid_name(s: Seq<char>) -> bool {
    &&& !blank(s)
    &&& !name_too_long(s)
    &&& !has_forbidden_char(s)
}

pub open spec fn no_whitespace(s: Seq<char>) -> bool {
    forall|i: int| 0 <= i < s.len() ==> !is_space(#[trigger] s[i])
}

/// `i` is the position of the separator of a well-formed address `s`:
/// the one `'@'` of the string, with a non-empty local part before it, a
/// non-empty domain after it, and at least one dot in the domain.
pub open spec fn email_split_at(s: Seq<char>, i: int) -> bool {
    &&& 0 < i < s.len() - 1
    &&& s[i] == '@'
    &&& forall|j: int| 0 <= j < s.len() && #[trigger] s[j] == '@' ==> j == i
    &&& exists|k: int| i < k < s.len() && #[trigger] s[k] == '.'
}

/// The email-address grammar accepted here: `local-part@domain` with a single
/// `'@'`, at least one dot in the domain, and no embedded whitespace.
pub open spec fn valid_email(s: Seq<char>) -> bool {
    &&& no_whitespace(s)
    &&& exists|i: int| email_split_at(s, i)
}

fn char_is_space(c: char) -> (r: bool)
    ensures
        r == is_space(c),
{
    let code = c as u32;
    (0x09 <= code && code <= 0x0d) || c == ' ' || c == '\u{85}' || c == '\u{a0}'
        || c == '\u{1680}' || (0x2000 <= code && code <= 0x200a) || c == '\u{2028}'
        || c == '\u{2029}' || c == '\u{202f}' || c == '\u{205f}' || c == '\u{3000}'
}

/// A syntactically valid email address. The only way to construct one is the
/// validating `parse`, so a value of this type always satisfies `valid_email`.
#[derive(Debug)]
pub struct ValidatedEmailAddress {
    email: String,
}

impl View for ValidatedEmailAddress {
    type V = Seq<char>;

    closed spec fn view(&self) -> Seq<char> {
        self.email@
    }
}

impl ValidatedEmailAddress {
    #[verifier::type_invariant]
    closed spec fn wf(self) -> bool {
        valid_email(self.email@)
    }

    /// Accept `raw` exactly when it satisfies the email grammar; the accepted
    /// value exposes the original string unchanged.
    pub fn parse(raw: String) -> (r: Result<ValidatedEmailAddress, ValidationError>)
        ensures
            r is Ok <==> valid_email(raw@),
            r matches Ok(v) ==> v@ == raw@,
            r matches Err(e) ==> e == ValidationError::InvalidEmail,
    {
        let s = raw.as_str();
        let n = s.unicode_len();

        let mut i: usize = 0;
        while i < n
            invariant
                i <= n,
                n == s@.len(),
                s@ == raw@,
                forall|j: int| 0 <= j < i ==> !is_space(#[trigger] s@[j]),
            decreases n - i,
        {
            if char_is_space(s.get_char(i)) {
                return Err(ValidationError::InvalidEmail);
            }
            i += 1;
        }

        let mut at_pos: usize = 0;
        let mut has_at = false;
        let mut i: usize = 0;
        while i < n
            invariant
                i <= n,
                n == s@.len(),
                s@ == raw@,
                has_at ==> at_pos < i && s@[at_pos as int] == '@',
                has_at ==> forall|j: int| 0 <= j < i && j != at_pos ==> #[trigger] s@[j] != '@',
                !has_at ==> forall|j: int| 0 <= j < i ==> #[trigger] s@[j] != '@',
            decreases n - i,
        {
            if s.get_char(i) == '@' {
                if has_at {
                    proof {
                        assert forall|p: int| !email_split_at(raw@, p) by {
                            if email_split_at(raw@, p) {
                                assert(raw@[at_pos as int] == '@');
                                assert(raw@[i as int] == '@');
                            }
                        }
                    }
                    return Err(ValidationError::InvalidEmail);
                }
                at_pos = i;
                has_at = true;
            }
            i += 1;
        }
        if !has_at {
            proof {
                assert forall|p: int| !email_split_at(raw@, p) by {
                    if email_split_at(raw@, p) {
                        assert(raw@[p] == '@');
                    }
                }
            }
            return Err(ValidationError::InvalidEmail);
        }
        if at_pos == 0 || at_pos + 1 >= n {
            proof {
                assert forall|p: int| !email_split_at(raw@, p) by {
                    if email_split_at(raw@, p) {
                        assert(raw@[p] == '@');
                        assert(p == at_pos as int);
                    }
                }
            }
            return Err(ValidationError::InvalidEmail);
        }

        let mut k: usize = at_pos + 1;
        while k < n
            invariant
                at_pos < k <= n,
                0 < at_pos,
                at_pos + 1 < n,
                n == s@.len(),
                s@ == raw@,
                s@[at_pos as int] == '@',
                forall|j: int| 0 <= j < n && j != at_pos ==> #[trigger] s@[j] != '@',
                no_whitespace(raw@),
                forall|j: int| at_pos < j < k ==> #[trigger] s@[j] != '.',
            decreases n - k,
        {
            if s.get_char(k) == '.' {
                proof {
                    assert(email_split_at(raw@, at_pos as int));
                }
                return Ok(ValidatedEmailAddress { email: raw });
            }
            k += 1;
        }
        proof {
            assert forall|p: int| !email_split_at(raw@, p) by {
                if email_split_at(raw@, p) {
                    assert(raw@[p] == '@');
                    assert(p == at_pos as int);
                    let d = choose|d: int| p < d < raw@.len() && #[trigger] raw@[d] == '.';
                    assert(raw@[d] == '.');
                }
            }
        }
        Err(ValidationError::InvalidEmail)
    }

    /// Read-only access to the underlying, already validated string.
    pub fn as_str(&self) -> (r: &str)
        ensures
            r@ == self@,
            valid_email(self@),
    {
        proof {
            use_type_invariant(&*self);
        }
        self.email.as_str()
    }
}

/// Law: a string that contains no `'@'` is never a valid email address, so
/// `ValidatedEmailAddress::parse` rejects it with `InvalidEmail`.
pub proof fn lemma_email_without_at_is_invalid(s: Seq<char>)
    requires
        forall|i: int| 0 <= i < s.len() ==> #[trigger] s[i] != '@',
    ensures
        !valid_email(s),
{
    if valid_email(s) {
        let i = choose|i: int| email_split_at(s, i);
        assert(s[i] == '@');
    }
}

/// Law: a string of the shape `local@domain.tld` — all three pieces
/// non-empty, none containing `'@'` or whitespace — is a valid email
/// address, so `ValidatedEmailAddress::parse` accepts it and, by its
/// contract, hands back a value whose accessor returns exactly the input.
pub proof fn lemma_simple_address_is_valid(local: Seq<char>, domain: Seq<char>, tld: Seq<char>)
    requires
        local.len() > 0,
        domain.len() > 0,
        tld.len() > 0,
        forall|i: int| 0 <= i < local.len() ==> #[trigger] local[i] != '@' && !is_space(local[i]),
        forall|i: int| 0 <= i < domain.len() ==> #[trigger] domain[i] != '@' && !is_space(
            domain[i],
        ),
        forall|i: int| 0 <= i < tld.len() ==> #[trigger] tld[i] != '@' && !is_space(tld[i]),
    ensures
        valid_email(local + seq!['@'] + domain + seq!['.'] + tld),
{
    let s = local + seq!['@'] + domain + seq!['.'] + tld;
    let a = local.len() as int;
    let d = local.len() + 1 + domain.len() as int;
    assert(s[a] == '@');
    assert(s[d] == '.');
    assert forall|j: int| 0 <= j < s.len() && #[trigger] s[j] == '@' implies j == a by {
        if j < a {
            assert(s[j] == local[j]);
        } else if a < j < d {
            assert(s[j] == domain[j - a - 1]);
        } else if j == d {
            assert(s[j] == '.');
        } else if j > d {
            assert(s[j] == tld[j - d - 1]);
        }
    }
    assert forall|j: int| 0 <= j < s.len() implies !is_space(#[trigger] s[j]) by {
        if j < a {
            assert(s[j] == local[j]);
        } else if j == a {
            assert(s[j] == '@');
        } else if a < j < d {
            assert(s[j] == domain[j - a - 1]);
        } else if j == d {
            assert(s[j] == '.');
        } else {
            assert(s[j] == tld[j - d - 1]);
        }
    }
    assert(email_split_at(s, a));
}

/// Why a raw string was rejected as a subscriber name.
#[derive(Clone, Copy, Debug, PartialEq, Eq, Structural)]
pub enum NameRule {
    Empty,
    TooLong,
    ForbiddenCharacter,
}

/// Rejection of a raw input by the validating constructors.
#[derive(Clone, Copy, Debug, PartialEq, Eq, Structural)]
pub enum ValidationError {
    InvalidEmail,
    InvalidName(NameRule),
}

/// A display name safe for storage and notification. The only way to
/// construct one is the validating `parse`, so a value of this type always
/// satisfies `valid_name`.
#[derive(Debug)]
pub struct ValidatedSubscriberName {
    name: String,
}

impl View for ValidatedSubscriberName {
    type V = Seq<char>;

    closed spec fn view(&self) -> Seq<char> {
        self.name@
    }
}

impl ValidatedSubscriberName {
    #[verifier::type_invariant]
    closed spec fn wf(self) -> bool {
        valid_name(self.name@)
    }

    /// Accept `raw` exactly when it is not blank, its trimmed length stays
    /// within the bound, and no forbidden character occurs in it. A rejection
    /// names the first rule violated, checked in the order: blank, forbidden
    /// character, too long.
    pub fn parse(raw: String) -> (r: Result<ValidatedSubscriberName, ValidationError>)
        ensures
            r is Ok <==> valid_name(raw@),
            r matches Ok(v) ==> v@ == raw@,
            blank(raw@) ==> (r matches Err(e) && e == ValidationError::InvalidName(
                NameRule::Empty,
            )),
            has_forbidden_char(raw@) ==> (r matches Err(e) && e == ValidationError::InvalidName(
                NameRule::ForbiddenCharacter,
            )),
            !blank(raw@) && !has_forbidden_char(raw@) && name_too_long(raw@) ==> (r matches Err(e)
                && e == ValidationError::InvalidName(NameRule::TooLong)),
            r matches Err(e) ==> e matches ValidationError::InvalidName(_),
    {
        let s = raw.as_str();
        let n = s.unicode_len();

        let mut f: usize = 0;
        let mut found = false;
        while !found && f < n
            invariant
                f <= n,
                n == s@.len(),
                s@ == raw@,
                forall|j: int| 0 <= j < f ==> is_space(#[trigger] s@[j]),
                found ==> f < n && !is_space(s@[f as int]),
            decreases n - f + (if found { 0int } else { 1int }),
        {
            if char_is_space(s.get_char(f)) {
                f += 1;
            } else {
                found = true;
            }
        }
        if !found {
            proof {
                if has_forbidden_char(raw@) {
                    let w = choose|w: int|
                        0 <= w < raw@.len() && forbidden_name_char(#[trigger] raw@[w]);
                    assert(is_space(raw@[w]));
                }
            }
            return Err(ValidationError::InvalidName(NameRule::Empty));
        }

        let mut i: usize = 0;
        while i < n
            invariant
                i <= n,
                n == s@.len(),
                s@ == raw@,
                forall|j: int| 0 <= j < i ==> !forbidden_name_char(#[trigger] s@[j]),
            decreases n - i,
        {
            let c = s.get_char(i);
            if c == '/' || c == '(' || c == ')' || c == '"' || c == '<' || c == '>' || c == '\\'
                || c == '{' || c == '}' {
                proof {
                    if blank(raw@) {
                        assert(is_space(raw@[i as int]));
                    }
                }
                return Err(ValidationError::InvalidName(NameRule::ForbiddenCharacter));
            }
            i += 1;
        }

        let mut l: usize = n - 1;
        while char_is_space(s.get_char(l))
            invariant
                f <= l < n,
                n == s@.len(),
                s@ == raw@,
                !is_space(s@[f as int]),
                forall|j: int| l < j < n ==> is_space(#[trigger] s@[j]),
            decreases l,
        {
            l -= 1;
        }

        if l - f + 1 > MAX_SUBSCRIBER_NAME_CHARS {
            proof {
                assert(trim_bounds(raw@, f as int, l as int));
            }
            return Err(ValidationError::InvalidName(NameRule::TooLong));
        }
        proof {
            assert forall|f2: int, l2: int| trim_bounds(raw@, f2, l2) implies l2 - f2 + 1
                <= MAX_SUBSCRIBER_NAME_CHARS as int by {
                if f2 < f as int {
                    assert(is_space(raw@[f2]));
                }
                if f2 > f as int {
                    assert(is_space(raw@[f as int]));
                }
                if l2 < l as int {
                    assert(is_space(raw@[l as int]));
                }
                if l2 > l as int {
                    assert(is_space(raw@[l2]));
                }
            }
        }
        Ok(ValidatedSubscriberName { name: raw })
    }

    /// Read-only access to the underlying, already validated string.
    pub fn as_str(&self) -> (r: &str)
        ensures
            r@ == self@,
            valid_name(self@),
    {
        proof {
            use_type_invariant(&*self);
        }
        self.name.as_str()
    }
}

} // verus!
