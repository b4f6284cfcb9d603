//! Transfer configuration: port defaulting, remote-path defaulting, and the
//! validated configuration value handed to the authenticator and transferer.

use vstd::prelude::*;

verus! {

/// Port used when the user supplies no port or an unparsable one.
pub const DEFAULT_PORT: u16 = 22;

/// A decimal digit.
pub open spec fn is_digit(c: char) -> bool {
    '0' <= c && c <= '9'
}

/// Numeric value of a decimal digit.
pub open spec fn digit_val(c: char) -> int {
    c as int - '0' as int
}

/// Every character of `s` is a decimal digit.
pub open spec fn all_digits(s: Seq<char>) -> bool {
    forall|i: int| 0 <= i < s.len() ==> is_digit(#[trigger] s[i])
}

/// Value of `s` read as a decimal numeral, most significant digit first.
pub open spec fn decimal_value(s: Seq<char>) -> int
    decreases s.len(),
{
    if s.len() == 0 {
        0
    } else {
        decimal_value(s.drop_last()) * 10 + digit_val(s.last())
    }
}

/// The digit portion of a numeral: a single leading `'+'`, if present, is
/// dropped, as Rust's unsigned integer parsing accepts one.
pub open spec fn digits_of(s: Seq<char>) -> Seq<char> {
    if s.len() > 0 && s[0] == '+' {
        s.subrange(1, s.len() as int)
    } else {
        s
    }
}

/// `s` parses as a 16-bit port number: at least one digit, digits only
/// (after an optional leading `'+'`), and in range.
pub open spec fn is_valid_port_str(s: Seq<char>) -> bool {
    &&& digits_of(s).len() > 0
    &&& all_digits(digits_of(s))
    &&& decimal_value(digits_of(s)) <= u16::MAX
}

/// What the port field of the configuration holds for a given user input:
/// the parsed value where the input is a valid port numeral, and the
/// default port otherwise (in particular for empty input).
pub open spec fn spec_parse_port(s: Seq<char>) -> u16 {
    if is_valid_port_str(s) {
        decimal_value(digits_of(s)) as u16
    } else {
        DEFAULT_PORT
    }
}

/// A digit string's value only grows when more digits follow: once a prefix
/// exceeds the port range, the whole string does.
proof fn lemma_decimal_prefix_bound(s: Seq<char>, k: int)
    requires
        0 <= k <= s.len(),
        all_digits(s),
        decimal_value(s.subrange(0, k)) > u16::MAX,
    ensures
        decimal_value(s) > u16::MAX,
    decreases s.len() - k,
{
    if k < s.len() {
        let p = s.subrange(0, k);
        let q = s.subrange(0, k + 1);
        assert(q.drop_last() =~= p);
        assert(q.last() == s[k]);
        assert(digit_val(s[k]) >= 0);
        assert(decimal_value(q) == decimal_value(p) * 10 + digit_val(s[k]));
        lemma_decimal_prefix_bound(s, k + 1);
    } else {
        assert(s.subrange(0, k) =~= s);
    }
}

/// Parse a user-supplied port string, falling back to the default port on
/// empty or unparsable input.
pub fn parse_port(input: &str) -> (r: u16)
    ensures
        r == spec_parse_port(input@),
{
    let n = input.unicode_len();
    let start: usize = if n > 0 && input.get_char(0) == '+' {
        1
    } else {
        0
    };
    let ghost digits = digits_of(input@);
    proof {
        assert(digits =~= input@.subrange(start as int, n as int));
    }
    if start == n {
        // No digits at all: not a valid numeral.
        return DEFAULT_PORT;
    }
    let mut value: u32 = 0;
    let mut i: usize = start;
    while i < n
        invariant
            start <= i <= n,
            n == input@.len(),
            digits == input@.subrange(start as int, n as int),
            digits == digits_of(input@),
            all_digits(digits.subrange(0, i - start)),
            value == decimal_value(digits.subrange(0, i - start)),
            value <= u16::MAX,
        decreases n - i,
    {
        let c = input.get_char(i);
        if !('0' <= c && c <= '9') {
            proof {
                assert(digits[i - start] == input@[i as int]);
                assert(!is_digit(digits[i - start]));
            }
            return DEFAULT_PORT;
        }
        let d: u32 = (c as u32) - ('0' as u32);
        let next: u32 = value * 10 + d;
        proof {
            let pre = digits.subrange(0, i - start);
            let ext = digits.subrange(0, i + 1 - start);
            assert(ext.drop_last() =~= pre);
            assert(ext.last() == digits[i - start]);
            assert(digits[i - start] == input@[i as int]);
            assert(decimal_value(ext) == decimal_value(pre) * 10 + digit_val(ext.last()));
        }
        if next > u16::MAX as u32 {
            proof {
                if all_digits(digits) {
                    lemma_decimal_prefix_bound(digits, i + 1 - start);
                }
            }
            return DEFAULT_PORT;
        }
        value = next;
        i = i + 1;
    }
    proof {
        assert(digits.subrange(0, n - start) =~= digits);
        assert(is_valid_port_str(input@));
    }
    value as u16
}

/// A digit string's value is never negative.
proof fn lemma_decimal_value_nonneg(s: Seq<char>)
    requires
        all_digits(s),
    ensures
        decimal_value(s) >= 0,
    decreases s.len(),
{
    if s.len() > 0 {
        lemma_decimal_value_nonneg(s.drop_last());
    }
}

/// Port defaulting: empty input and non-numeric input both yield the
/// default port, while a valid numeral yields exactly its value.
pub proof fn lemma_port_defaulting(s: Seq<char>)
    ensures
        s.len() == 0 ==> spec_parse_port(s) == DEFAULT_PORT,
        !all_digits(digits_of(s)) ==> spec_parse_port(s) == DEFAULT_PORT,
        is_valid_port_str(s) ==> spec_parse_port(s) == decimal_value(digits_of(s)),
{
    if is_valid_port_str(s) {
        lemma_decimal_value_nonneg(digits_of(s));
    }
}

/// The final path component of `s`: everything after the last `'/'`, or all
/// of `s` when it holds no `'/'`.
pub open spec fn spec_basename(s: Seq<char>) -> Seq<char>
    decreases s.len(),
{
    if s.len() == 0 {
        Seq::<char>::empty()
    } else if s.last() == '/' {
        Seq::<char>::empty()
    } else {
        spec_basename(s.drop_last()).push(s.last())
    }
}

/// A slash-free suffix that starts right after a `'/'` (or at the front) is
/// exactly the basename.
proof fn lemma_basename_suffix(s: Seq<char>, k: int)
    requires
        0 <= k <= s.len(),
        k == 0 || s[k - 1] == '/',
        forall|j: int| k <= j < s.len() ==> #[trigger] s[j] != '/',
    ensures
        spec_basename(s) =~= s.subrange(k, s.len() as int),
    decreases s.len(),
{
    if s.len() == k {
        if k > 0 {
            assert(s.last() == '/');
        }
    } else {
        assert(s[s.len() - 1] != '/');
        lemma_basename_suffix(s.drop_last(), k);
        assert(spec_basename(s) == spec_basename(s.drop_last()).push(s.last()));
        assert(s.drop_last().subrange(k, s.len() - 1) =~= s.subrange(k, s.len() - 1));
    }
}

/// The final path component of `path`.
pub fn basename<'a>(path: &'a str) -> (r: &'a str)
    ensures
        r@ == spec_basename(path@),
{
    let n = path.unicode_len();
    // `k` is the index just after the last slash seen so far.
    let mut k: usize = 0;
    let mut i: usize = 0;
    while i < n
        invariant
            0 <= k <= i <= n,
            n == path@.len(),
            k == 0 || path@[k - 1] == '/',
            forall|j: int| k <= j < i ==> #[trigger] path@[j] != '/',
        decreases n - i,
    {
        if path.get_char(i) == '/' {
            k = i + 1;
        }
        i = i + 1;
    }
    proof {
        lemma_basename_suffix(path@, k as int);
    }
    path.substring_char(k, n)
}

/// The remote path used when the user supplies none:
/// `/home/{username}/{basename(local_file)}`.
pub open spec fn spec_default_remote_path(username: Seq<char>, local_file: Seq<char>) -> Seq<char> {
    "/home/"@ + username + "/"@ + spec_basename(local_file)
}

/// Compute the default remote path for a username and a local file path.
pub fn default_remote_path(username: &str, local_file: &str) -> (r: String)
    ensures
        r@ == spec_default_remote_path(username@, local_file@),
{
    let mut r = String::from_str("/home/");
    r.append(username);
    r.append("/");
    let base = basename(local_file);
    r.append(base);
    proof {
        assert(r@ =~= spec_default_remote_path(username@, local_file@));
    }
    r
}

/// The remote path the transfer targets: the user's input where one was
/// given, and the computed default where the input is empty.
pub open spec fn spec_resolve_remote_path(
    input: Seq<char>,
    username: Seq<char>,
    local_file: Seq<char>,
) -> Seq<char> {
    if input.len() == 0 {
        spec_default_remote_path(username, local_file)
    } else {
        input
    }
}

/// Resolve the user's remote-path input against the computed default.
pub fn resolve_remote_path(input: String, username: &str, local_file: &str) -> (r: String)
    ensures
        r@ == spec_resolve_remote_path(input@, username@, local_file@),
{
    if input.as_str().unicode_len() == 0 {
        default_remote_path(username, local_file)
    } else {
        input
    }
}

/// Immutable description of one transfer, built once from user input and
/// read-only thereafter.
pub struct TransferConfig {
    /// Path of the local file to send; non-empty.
    pub local_file: String,
    /// Host to connect to; non-empty.
    pub remote_host: String,
    /// TCP port of the remote host.
    pub port: u16,
    /// Destination path on the remote host; non-empty.
    pub remote_path: String,
    /// User to authenticate as; non-empty.
    pub username: String,
}

impl TransferConfig {
    /// The configuration's invariant: every textual field is non-empty.
    pub open spec fn wf(self) -> bool {
        &&& self.local_file@.len() > 0
        &&& self.remote_host@.len() > 0
        &&& self.remote_path@.len() > 0
        &&& self.username@.len() > 0
    }

    /// Assemble a configuration from collected user input, applying port
    /// and remote-path defaulting.
    pub fn new(
        local_file: String,
        remote_host: String,
        port_input: &str,
        username: String,
        remote_path_input: String,
    ) -> (r: Self)
        requires
            local_file@.len() > 0,
            remote_host@.len() > 0,
            username@.len() > 0,
        ensures
            r.wf(),
            r.local_file == local_file,
            r.remote_host == remote_host,
            r.port == spec_parse_port(port_input@),
            r.remote_path@ == spec_resolve_remote_path(
                remote_path_input@,
                username@,
                local_file@,
            ),
            r.username == username,
    {
        let port = parse_port(port_input);
        let remote_path = resolve_remote_path(
            remote_path_input,
            username.as_str(),
            local_file.as_str(),
        );
        proof {
            reveal_strlit("/home/");
        }
        TransferConfig { local_file, remote_host, port, remote_path, username }
    }
}

} // verus!
