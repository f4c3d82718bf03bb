use vstd::prelude::*;

verus! {

/// A registration request body.
pub struct RegistrationData {
    pub username: String,
    pub password: String,
    pub repeat_password: String,
    pub invitation_code: String,
    pub ip_address: String,
    pub mac_address: Option<String>,
}

/// A login request body.
pub struct LoginData {
    pub username: String,
    pub password: String,
}

/// The UTF-8 width of one character, by its code point.
pub open spec fn utf8_width(c: char) -> int {
    if (c as u32) < 0x80 {
        1
    } else if (c as u32) < 0x800 {
        2
    } else if (c as u32) < 0x10000 {
        3
    } else {
        4
    }
}

/// The UTF-8 byte length of a character sequence: what `str::len` counts.
pub open spec fn byte_len(s: Seq<char>) -> int
    decreases s.len(),
{
    if s.len() == 0 {
        0
    } else {
        utf8_width(s.first()) + byte_len(s.drop_first())
    }
}

/// The field bounds hold of the encoded byte length.
pub open spec fn len_ok(s: Seq<char>, lo: int, hi: int) -> bool {
    lo <= byte_len(s) <= hi
}

/// Every character takes at least one byte.
pub proof fn lemma_byte_len_at_least_chars(s: Seq<char>)
    ensures
        byte_len(s) >= s.len(),
    decreases s.len(),
{
    if s.len() > 0 {
        lemma_byte_len_at_least_chars(s.drop_first());
    }
}

/// The UTF-8 width of one character.
fn char_width(c: char) -> (w: u8)
    ensures
        w == utf8_width(c),
{
    let code = c as u32;
    if code < 0x80 {
        1
    } else if code < 0x800 {
        2
    } else if code < 0x10000 {
        3
    } else {
        4
    }
}

/// Counts a string's UTF-8 bytes.
fn utf8_len(s: &str) -> (n: u128)
    ensures
        n == byte_len(s@),
{
    let count = s.unicode_len();
    let mut n: u128 = 0;
    assert(s@.skip(0) == s@);
    for i in 0..count
        invariant
            count == s@.len(),
            byte_len(s@) == n + byte_len(s@.skip(i as int)),
            n <= 4 * i,
    {
        let c = s.get_char(i);
        proof {
            assert(s@.skip(i as int).first() == c);
            assert(s@.skip(i as int).drop_first() == s@.skip(i + 1));
        }
        let w = char_width(c);
        n = n + w as u128;
    }
    proof {
        assert(s@.skip(count as int) =~= Seq::<char>::empty());
    }
    n
}

/// Whether a registration body passes validation.
pub open spec fn registration_valid(d: RegistrationData) -> bool {
    &&& len_ok(d.username@, 3, 16)
    &&& len_ok(d.password@, 6, 16)
    &&& len_ok(d.repeat_password@, 6, 16)
    &&& len_ok(d.invitation_code@, 3, 16)
}

/// The validation messages a registration body earns, in field order.
pub open spec fn registration_error_messages(d: RegistrationData) -> Seq<Seq<char>> {
    (if !len_ok(d.username@, 3, 16) {
        seq!["Username must be between 3 and 16 characters"@]
    } else {
        Seq::empty()
    }) + (if !len_ok(d.password@, 6, 16) {
        seq!["Password must be between 6 and 16 characters"@]
    } else {
        Seq::empty()
    }) + (if !len_ok(d.repeat_password@, 6, 16) {
        seq!["Repeat password must be between 6 and 16 characters"@]
    } else {
        Seq::empty()
    }) + (if !len_ok(d.invitation_code@, 3, 16) {
        seq!["Invitation code must be between 3 and 16 characters"@]
    } else {
        Seq::empty()
    })
}

/// Whether a login body passes validation.
pub open spec fn login_valid(d: LoginData) -> bool {
    &&& len_ok(d.username@, 3, 16)
    &&& len_ok(d.password@, 6, 16)
}

/// The validation messages a login body earns, in field order.
pub open spec fn login_error_messages(d: LoginData) -> Seq<Seq<char>> {
    (if !len_ok(d.username@, 3, 16) {
        seq!["Username must be between 3 and 16 characters"@]
    } else {
        Seq::empty()
    }) + (if !len_ok(d.password@, 6, 16) {
        seq!["Password must be between 6 and 16 characters"@]
    } else {
        Seq::empty()
    })
}

impl RegistrationData {
    /// Checks the field byte lengths, reporting one message per failing
    /// field, in field order.
    pub fn validate(&self) -> (r: Result<(), Vec<String>>)
        ensures
            r is Ok <==> registration_valid(*self),
            r matches Err(v) ==> {
                let msgs = registration_error_messages(*self);
                &&& v@.len() == msgs.len()
                &&& forall|k: int| 0 <= k < msgs.len() ==> (#[trigger] v@[k])@ == msgs[k]
            },
    {
        let mut v: Vec<String> = Vec::new();
        let username_len = utf8_len(self.username.as_str());
        let password_len = utf8_len(self.password.as_str());
        let repeat_len = utf8_len(self.repeat_password.as_str());
        let code_len = utf8_len(self.invitation_code.as_str());
        if username_len < 3 || username_len > 16 {
            v.push(String::from_str("Username must be between 3 and 16 characters"));
        }
        if password_len < 6 || password_len > 16 {
            v.push(String::from_str("Password must be between 6 and 16 characters"));
        }
        if repeat_len < 6 || repeat_len > 16 {
            v.push(String::from_str("Repeat password must be between 6 and 16 characters"));
        }
        if code_len < 3 || code_len > 16 {
            v.push(String::from_str("Invitation code must be between 3 and 16 characters"));
        }
        if v.is_empty() {
            Ok(())
        } else {
            Err(v)
        }
    }
}

impl LoginData {
    /// Checks the field byte lengths, reporting one message per failing
    /// field, in field order.
    pub fn validate(&self) -> (r: Result<(), Vec<String>>)
        ensures
            r is Ok <==> login_valid(*self),
            r matches Err(v) ==> {
                let msgs = login_error_messages(*self);
                &&& v@.len() == msgs.len()
                &&& forall|k: int| 0 <= k < msgs.len() ==> (#[trigger] v@[k])@ == msgs[k]
            },
    {
        let mut v: Vec<String> = Vec::new();
        let username_len = utf8_len(self.username.as_str());
        let password_len = utf8_len(self.password.as_str());
        if username_len < 3 || username_len > 16 {
            v.push(String::from_str("Username must be between 3 and 16 characters"));
        }
        if password_len < 6 || password_len > 16 {
            v.push(String::from_str("Password must be between 6 and 16 characters"));
        }
        if v.is_empty() {
            Ok(())
        } else {
            Err(v)
        }
    }
}

/// A list of messages joined into one line, single spaces in between.
pub open spec fn joined_messages(msgs: Seq<Seq<char>>) -> Seq<char>
    decreases msgs.len(),
{
    if msgs.len() == 0 {
        Seq::empty()
    } else if msgs.len() == 1 {
        msgs.last()
    } else {
        joined_messages(msgs.drop_last()) + " "@ + msgs.last()
    }
}

/// Renders the collected validation messages as one line, in order, single
/// spaces in between.
pub fn map_validation_errors(errors: &Vec<String>) -> (r: String)
    ensures
        r@ == joined_messages(errors.deep_view()),
{
    let ghost msgs = errors.deep_view();
    let mut out = String::new();
    let n = errors.len();
    assert(joined_messages(msgs.take(0)) =~= out@);
    for i in 0..n
        invariant
            n == errors@.len(),
            msgs == errors.deep_view(),
            out@ == joined_messages(msgs.take(i as int)),
    {
        if i > 0 {
            out.append(" ");
        }
        out.append(errors[i].as_str());
        proof {
            let cur = msgs.take(i as int + 1);
            assert(cur.drop_last() =~= msgs.take(i as int));
            assert(cur.last() == msgs[i as int]);
            assert(msgs[i as int] == errors@[i as int]@);
            if i == 0 {
                assert(out@ =~= joined_messages(cur));
            } else {
                assert(out@ =~= joined_messages(cur));
            }
        }
    }
    proof {
        assert(msgs.take(n as int) =~= msgs);
    }
    out
}

} // verus!
