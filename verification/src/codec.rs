//! Name and path codec.
//!
//! Slice names are dash-segmented: `user-1000.slice` sits under `user.slice`,
//! which sits under the root slice `-.slice`. A unit name is turned into its
//! bus object path by escaping every character that is not alphanumeric or an
//! underscore (and a leading digit) into `_` followed by two lowercase hex
//! digits, then prefixing the fixed unit-path root.

use vstd::prelude::*;
use vstd::string::StrSliceExecFns;
use vstd::string::StringExecFns;

verus! {

/// The `.slice` suffix every slice name carries.
pub open spec fn slice_suffix() -> Seq<char> {
    ".slice"@
}

/// The conventional rendering of the root slice.
pub open spec fn root_slice() -> Seq<char> {
    "-.slice"@
}

/// The fixed prefix of every unit object path on the bus.
pub open spec fn unit_path_root() -> Seq<char> {
    "/org/freedesktop/systemd1/unit/"@
}

/// The slice name without its `.slice` suffix; names that do not carry the
/// suffix are left as they are.
pub open spec fn slice_stem(name: Seq<char>) -> Seq<char> {
    if name.len() >= slice_suffix().len() && name.skip(name.len() - slice_suffix().len())
        == slice_suffix() {
        name.take(name.len() - slice_suffix().len())
    } else {
        name
    }
}

/// A well-formed slice name: either the root slice, or a non-empty
/// dash-segmented stem followed by `.slice`.
pub open spec fn is_slice_name(name: Seq<char>) -> bool {
    name == root_slice() || (name.len() > slice_suffix().len() && name.skip(
        name.len() - slice_suffix().len(),
    ) == slice_suffix() && name[0] != '-')
}

/// The full name of the child slice of `parent` with leaf segment `leaf`:
/// the parent's stem, a dash, the leaf, and the `.slice` suffix; a child of
/// the root slice is just the leaf with the suffix.
pub open spec fn child_slice_name(parent: Seq<char>, leaf: Seq<char>) -> Seq<char> {
    if parent == root_slice() {
        leaf + slice_suffix()
    } else {
        slice_stem(parent) + seq!['-'] + leaf + slice_suffix()
    }
}

/// Index of the last dash in `s`, or -1 if there is none.
pub open spec fn last_dash(s: Seq<char>) -> int
    decreases s.len(),
{
    if s.len() == 0 {
        -1
    } else if s.last() == '-' {
        s.len() - 1
    } else {
        last_dash(s.drop_last())
    }
}

/// The parent of a slice name: the stem up to (and without) its last dash,
/// with the `.slice` suffix restored; a single-segment name's parent is the
/// root slice.
pub open spec fn parent_slice_name(name: Seq<char>) -> Seq<char> {
    let stem = slice_stem(name);
    if last_dash(stem) <= 0 {
        root_slice()
    } else {
        stem.take(last_dash(stem)) + slice_suffix()
    }
}

/// Character-for-character equality of two string slices.
pub fn str_eq(a: &str, b: &str) -> (r: bool)
    ensures
        r == (a@ == b@),
{
    let an = a.unicode_len();
    let bn = b.unicode_len();
    if an != bn {
        proof {
            assert(a@ != b@) by {
                assert(a@.len() != b@.len());
            }
        }
        return false;
    }
    let mut i: usize = 0;
    while i < an
        invariant
            i <= an,
            an == a@.len(),
            an == b@.len(),
            forall|j: int| 0 <= j < i ==> a@[j] == b@[j],
        decreases an - i,
    {
        if a.get_char(i) != b.get_char(i) {
            return false;
        }
        i += 1;
    }
    proof {
        assert(a@ =~= b@);
    }
    true
}

/// Whether `s` ends with the `.slice` suffix.
fn has_slice_suffix(s: &str) -> (r: bool)
    ensures
        r == (s@.len() >= slice_suffix().len() && s@.skip(s@.len() - slice_suffix().len())
            == slice_suffix()),
{
    proof {
        reveal_strlit(".slice");
    }
    let n = s.unicode_len();
    if n < 6 {
        return false;
    }
    let tail = s.substring_char(n - 6, n);
    proof {
        assert(tail@ == s@.skip(s@.len() - 6));
    }
    str_eq(tail, ".slice")
}

/// Derive the name of a new child slice of `parent` named by `leaf`:
/// `user.slice` and `1000` give `user-1000.slice`.
pub fn new_slice(parent: &str, leaf: &str) -> (r: String)
    ensures
        r@ == child_slice_name(parent@, leaf@),
{
    proof {
        reveal_strlit(".slice");
    }
    if str_eq(parent, "-.slice") {
        let mut r = String::from_str(leaf);
        r.append(".slice");
        return r;
    }
    let n = parent.unicode_len();
    let stem = if has_slice_suffix(parent) {
        parent.substring_char(0, n - 6)
    } else {
        parent
    };
    proof {
        assert(stem@ == slice_stem(parent@));
    }
    let mut r = String::from_str(stem);
    r.append("-");
    r.append(leaf);
    r.append(".slice");
    proof {
        reveal_strlit("-");
        assert(r@ =~= slice_stem(parent@) + seq!['-'] + leaf@ + slice_suffix());
    }
    r
}

/// The parent slice of `name`, obtained by dropping the last dash-segment of
/// its stem; a single-segment name's parent is the root slice `-.slice`.
pub fn parent_slice(name: &str) -> (r: String)
    ensures
        r@ == parent_slice_name(name@),
{
    proof {
        reveal_strlit(".slice");
    }
    let n = name.unicode_len();
    let stem = if has_slice_suffix(name) {
        name.substring_char(0, n - 6)
    } else {
        name
    };
    proof {
        assert(stem@ == slice_stem(name@));
    }
    let sn = stem.unicode_len();
    let mut i: usize = sn;
    while i > 0
        invariant
            i <= sn,
            sn == stem@.len(),
            stem@ == slice_stem(name@),
            forall|j: int| i <= j < sn ==> stem@[j] != '-',
        decreases i,
    {
        if stem.get_char(i - 1) == '-' {
            proof {
                lemma_last_dash_found(stem@, i - 1);
            }
            if i - 1 == 0 {
                return String::from_str("-.slice");
            }
            let head = stem.substring_char(0, i - 1);
            let mut r = String::from_str(head);
            r.append(".slice");
            proof {
                assert(r@ =~= slice_stem(name@).take(last_dash(slice_stem(name@)))
                    + slice_suffix());
            }
            return r;
        }
        i -= 1;
    }
    proof {
        lemma_last_dash_none(stem@);
    }
    String::from_str("-.slice")
}

/// If position `k` holds a dash and no later position does, then `k` is the
/// last dash of `s`.
proof fn lemma_last_dash_found(s: Seq<char>, k: int)
    requires
        0 <= k < s.len(),
        s[k] == '-',
        forall|j: int| k < j < s.len() ==> s[j] != '-',
    ensures
        last_dash(s) == k,
    decreases s.len(),
{
    if k == s.len() - 1 {
    } else {
        lemma_last_dash_found(s.drop_last(), k);
    }
}

/// A string without any dash has no last dash.
proof fn lemma_last_dash_none(s: Seq<char>)
    requires
        forall|j: int| 0 <= j < s.len() ==> s[j] != '-',
    ensures
        last_dash(s) == -1,
    decreases s.len(),
{
    if s.len() > 0 {
        lemma_last_dash_none(s.drop_last());
    }
}

/// Whether `c` passes through path escaping unchanged: ASCII alphanumerics
/// and the underscore.
pub open spec fn is_unescaped_char(c: char) -> bool {
    ('0' <= c && c <= '9') || ('A' <= c && c <= 'Z') || ('a' <= c && c <= 'z') || c == '_'
}

/// The lowercase hex digit for a value below 16.
pub open spec fn hex_char(v: int) -> char {
    if v == 0 {
        '0'
    } else if v == 1 {
        '1'
    } else if v == 2 {
        '2'
    } else if v == 3 {
        '3'
    } else if v == 4 {
        '4'
    } else if v == 5 {
        '5'
    } else if v == 6 {
        '6'
    } else if v == 7 {
        '7'
    } else if v == 8 {
        '8'
    } else if v == 9 {
        '9'
    } else if v == 10 {
        'a'
    } else if v == 11 {
        'b'
    } else if v == 12 {
        'c'
    } else if v == 13 {
        'd'
    } else if v == 14 {
        'e'
    } else {
        'f'
    }
}

/// The escaped form of one character: itself when unescaped (but a digit in
/// leading position is escaped too), else `_` and two hex digits of its byte
/// value.
pub open spec fn escape_char(c: char, leading: bool) -> Seq<char> {
    if is_unescaped_char(c) && !(leading && '0' <= c && c <= '9') {
        seq![c]
    } else {
        seq!['_', hex_char((c as u32) as int / 16), hex_char((c as u32) as int % 16)]
    }
}

/// The escaped form of a unit name: every character escaped per
/// [`escape_char`], the first one in leading position.
pub open spec fn escape_name(s: Seq<char>) -> Seq<char>
    decreases s.len(),
{
    if s.len() == 0 {
        Seq::empty()
    } else {
        escape_name(s.drop_last()) + escape_char(s.last(), s.len() == 1)
    }
}

/// The one-character string of a lowercase hex digit.
fn hex_str(v: u32) -> (r: &'static str)
    requires
        v < 16,
    ensures
        r@ == seq![hex_char(v as int)],
{
    proof {
        reveal_strlit("0");
        reveal_strlit("1");
        reveal_strlit("2");
        reveal_strlit("3");
        reveal_strlit("4");
        reveal_strlit("5");
        reveal_strlit("6");
        reveal_strlit("7");
        reveal_strlit("8");
        reveal_strlit("9");
        reveal_strlit("a");
        reveal_strlit("b");
        reveal_strlit("c");
        reveal_strlit("d");
        reveal_strlit("e");
        reveal_strlit("f");
    }
    if v == 0 {
        "0"
    } else if v == 1 {
        "1"
    } else if v == 2 {
        "2"
    } else if v == 3 {
        "3"
    } else if v == 4 {
        "4"
    } else if v == 5 {
        "5"
    } else if v == 6 {
        "6"
    } else if v == 7 {
        "7"
    } else if v == 8 {
        "8"
    } else if v == 9 {
        "9"
    } else if v == 10 {
        "a"
    } else if v == 11 {
        "b"
    } else if v == 12 {
        "c"
    } else if v == 13 {
        "d"
    } else if v == 14 {
        "e"
    } else {
        "f"
    }
}

/// Escape an ASCII unit name for use as the final segment of its bus object
/// path. The bus's own grammar keeps unit names to ASCII, so escaping by
/// character and escaping by byte coincide.
pub fn escape_unit_name(name: &str) -> (r: String)
    requires
        name.is_ascii(),
    ensures
        r@ == escape_name(name@),
{
    let n = name.unicode_len();
    let mut r = String::new();
    let mut i: usize = 0;
    while i < n
        invariant
            i <= n,
            n == name@.len(),
            name.is_ascii(),
            r@ == escape_name(name@.take(i as int)),
        decreases n - i,
    {
        let c = name.get_char(i);
        proof {
            vstd::utf8::is_ascii_chars_nat_bound(name@);
            assert(name@.take(i as int + 1).drop_last() =~= name@.take(i as int));
            assert(name@.take(i as int + 1).last() == c);
        }
        let escaped_leading_digit = i == 0 && '0' <= c && c <= '9';
        if !escaped_leading_digit && (('0' <= c && c <= '9') || ('A' <= c && c <= 'Z') || ('a'
            <= c && c <= 'z') || c == '_') {
            let one = name.substring_ascii(i, i + 1);
            proof {
                assert(one@ =~= seq![c]);
            }
            r.append(one);
        } else {
            let v = c as u32;
            proof {
                assert(v < 128);
            }
            r.append("_");
            r.append(hex_str(v / 16));
            r.append(hex_str(v % 16));
            proof {
                reveal_strlit("_");
            }
        }
        proof {
            assert(r@ =~= escape_name(name@.take(i as int + 1)));
        }
        i += 1;
    }
    proof {
        assert(name@.take(n as int) =~= name@);
    }
    r
}

/// The bus object path of an ASCII unit name: the fixed unit-path root
/// followed by the escaped name.
pub fn encode_path(name: &str) -> (r: String)
    requires
        name.is_ascii(),
    ensures
        r@ == unit_path_root() + escape_name(name@),
{
    let mut r = String::from_str("/org/freedesktop/systemd1/unit/");
    let escaped = escape_unit_name(name);
    r.append(escaped.as_str());
    r
}

/// The digit character of a value below ten.
pub open spec fn digit_char(v: int) -> char {
    if v == 0 {
        '0'
    } else if v == 1 {
        '1'
    } else if v == 2 {
        '2'
    } else if v == 3 {
        '3'
    } else if v == 4 {
        '4'
    } else if v == 5 {
        '5'
    } else if v == 6 {
        '6'
    } else if v == 7 {
        '7'
    } else if v == 8 {
        '8'
    } else {
        '9'
    }
}

/// The decimal rendering of a number, most significant digit first, with no
/// leading zeros (zero itself renders as one digit).
pub open spec fn dec_digits(n: nat) -> Seq<char>
    decreases n,
{
    if n < 10 {
        seq![digit_char(n as int)]
    } else {
        dec_digits(n / 10).push(digit_char((n % 10) as int))
    }
}

/// The one-character string of a decimal digit.
fn digit_str(v: u64) -> (r: &'static str)
    requires
        v < 10,
    ensures
        r@ == seq![digit_char(v as int)],
{
    proof {
        reveal_strlit("0");
        reveal_strlit("1");
        reveal_strlit("2");
        reveal_strlit("3");
        reveal_strlit("4");
        reveal_strlit("5");
        reveal_strlit("6");
        reveal_strlit("7");
        reveal_strlit("8");
        reveal_strlit("9");
    }
    if v == 0 {
        "0"
    } else if v == 1 {
        "1"
    } else if v == 2 {
        "2"
    } else if v == 3 {
        "3"
    } else if v == 4 {
        "4"
    } else if v == 5 {
        "5"
    } else if v == 6 {
        "6"
    } else if v == 7 {
        "7"
    } else if v == 8 {
        "8"
    } else {
        "9"
    }
}

/// Render a number in decimal.
pub fn to_decimal(n: u64) -> (r: String)
    ensures
        r@ == dec_digits(n as nat),
    decreases n,
{
    if n < 10 {
        String::from_str(digit_str(n))
    } else {
        let mut r = to_decimal(n / 10);
        r.append(digit_str(n % 10));
        proof {
            assert(dec_digits((n / 10) as nat) + seq![digit_char((n % 10) as int)] =~= dec_digits(
                (n / 10) as nat,
            ).push(digit_char((n % 10) as int)));
        }
        r
    }
}

/// Law: deriving a child slice name and stripping its last dash-segment
/// leads back to the parent, for any leaf segment that is non-empty and
/// holds no dash of its own.
pub proof fn lemma_parent_of_child(parent: Seq<char>, leaf: Seq<char>)
    requires
        is_slice_name(parent),
        leaf.len() > 0,
        forall|i: int| 0 <= i < leaf.len() ==> leaf[i] != '-',
    ensures
        parent_slice_name(child_slice_name(parent, leaf)) == parent,
{
    reveal_strlit(".slice");
    reveal_strlit("-.slice");
    let child = child_slice_name(parent, leaf);
    if parent == root_slice() {
        assert(child == leaf + slice_suffix());
        assert(child.skip(child.len() - 6) =~= slice_suffix());
        assert(slice_stem(child) =~= leaf);
        lemma_last_dash_none(leaf);
    } else {
        let stem = slice_stem(parent);
        assert(parent.len() > 6 && parent.skip(parent.len() - 6) == slice_suffix());
        assert(stem == parent.take(parent.len() - 6));
        let cstem = stem + seq!['-'] + leaf;
        assert(child == cstem + slice_suffix());
        assert(child.skip(child.len() - 6) =~= slice_suffix());
        assert(slice_stem(child) =~= cstem);
        assert(cstem[stem.len() as int] == '-');
        assert(forall|j: int|
            stem.len() < j < cstem.len() ==> cstem[j] == leaf[j - stem.len() - 1]);
        lemma_last_dash_found(cstem, stem.len() as int);
        assert(stem.len() > 0) by {
            assert(parent[0] != '-');
            assert(parent.len() > 6);
        }
        assert(cstem.take(stem.len() as int) =~= stem);
        assert(stem + slice_suffix() =~= parent);
    }
}

} // verus!
