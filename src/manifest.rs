//! The manifest scan: the package's name and version, read line by line.
//!
//! The scan knows nothing of sections. The first line whose trimmed form
//! starts with `name =` gives the name, and the first that starts with
//! `version =` gives the version, wherever they stand in the file.
use vstd::prelude::*;
use vstd::string::*;
use crate::text::{
    all_stripped, chars_of, find_char, index_of, is_white, lemma_index_of_bounds, lemma_strip_end_suffix, lemma_strip_start_prefix, strip_end, strip_range,
    strip_start, substring, trim, unquote, Strip,
};

verus! {

/// The name and version of a package.
#[derive(Clone, Debug, PartialEq, Eq)]
pub struct PackageMetadata {
    pub name: String,
    pub version: String,
}

/// Why a manifest gave no metadata.
#[derive(Clone, Copy, Debug, PartialEq, Eq, Structural)]
pub enum ManifestError {
    /// No line starts with `name =`.
    MissingName,
    /// No line starts with `version =`.
    MissingVersion,
    /// The name line holds no `=`.
    MalformedName,
    /// The version line holds no `=`.
    MalformedVersion,
}

/// The two fields that the scan looks for.
#[derive(Clone, Copy, Debug, PartialEq, Eq, Structural)]
pub enum Field {
    Name,
    Version,
}

/// The text that a line of the field starts with, once trimmed.
pub open spec fn field_key(field: Field) -> Seq<char> {
    match field {
        Field::Name => seq!['n', 'a', 'm', 'e', ' ', '='],
        Field::Version => seq!['v', 'e', 'r', 's', 'i', 'o', 'n', ' ', '='],
    }
}

/// Whether `line` is a line of the field.
pub open spec fn is_field_line(line: Seq<char>, field: Field) -> bool {
    field_key(field).is_prefix_of(trim(line))
}

/// The first line of `s` at or after the line start `start` that is a line
/// of the field. Lines end at `'\n'`; a `'\r'` before it is whitespace, which
/// the trim removes.
pub open spec fn first_field_line(s: Seq<char>, field: Field, start: int) -> Option<Seq<char>>
    decreases s.len() - start,
    via first_field_line_decreases
{
    if start < 0 || start > s.len() {
        None
    } else {
        let end = index_of(s, '\n', start);
        if is_field_line(s.subrange(start, end), field) {
            Some(s.subrange(start, end))
        } else if end >= s.len() {
            None
        } else {
            first_field_line(s, field, end + 1)
        }
    }
}

#[via_fn]
proof fn first_field_line_decreases(s: Seq<char>, field: Field, start: int) {
    if 0 <= start <= s.len() {
        lemma_index_of_bounds(s, '\n', start);
    }
}

/// The value of a field line: all that follows its first `=`, trimmed, then
/// stripped of double quotes; `None` when the line holds no `=`.
pub open spec fn field_value(line: Seq<char>) -> Option<Seq<char>> {
    let eq = index_of(line, '=', 0);
    if eq >= line.len() {
        None
    } else {
        Some(unquote(trim(line.subrange(eq + 1, line.len() as int))))
    }
}

/// What the scan gives for the manifest text `s`: the name and the version,
/// or the first failure in the order name line, version line, name value,
/// version value.
pub open spec fn scan_manifest(s: Seq<char>) -> Result<(Seq<char>, Seq<char>), ManifestError> {
    match first_field_line(s, Field::Name, 0) {
        None => Err(ManifestError::MissingName),
        Some(name_line) => match first_field_line(s, Field::Version, 0) {
            None => Err(ManifestError::MissingVersion),
            Some(version_line) => match field_value(name_line) {
                None => Err(ManifestError::MalformedName),
                Some(name) => match field_value(version_line) {
                    None => Err(ManifestError::MalformedVersion),
                    Some(version) => Ok((name, version)),
                },
            },
        },
    }
}

fn key_chars(field: Field) -> (r: Vec<char>)
    ensures
        r@ == field_key(field),
{
    let r = match field {
        Field::Name => vec!['n', 'a', 'm', 'e', ' ', '='],
        Field::Version => vec!['v', 'e', 'r', 's', 'i', 'o', 'n', ' ', '='],
    };
    assert(r@ =~= field_key(field));
    r
}

/// Whether `key` is a prefix of `chars[lo..hi]`.
fn starts_with_at(chars: &Vec<char>, lo: usize, hi: usize, key: &Vec<char>) -> (r: bool)
    requires
        lo <= hi <= chars@.len(),
    ensures
        r == key@.is_prefix_of(chars@.subrange(lo as int, hi as int)),
{
    if key.len() > hi - lo {
        return false;
    }
    let mut i: usize = 0;
    while i < key.len()
        invariant
            key@.len() <= hi - lo,
            lo <= hi <= chars@.len(),
            i <= key@.len(),
            forall|k: int| 0 <= k < i ==> key@[k] == chars@[lo + k],
        decreases key@.len() - i,
    {
        if key[i] != chars[lo + i] {
            assert(chars@.subrange(lo as int, hi as int)[i as int] == chars@[lo + i]);
            return false;
        }
        i = i + 1;
    }
    assert(key@ =~= chars@.subrange(lo as int, hi as int).subrange(0, key@.len() as int));
    true
}

/// The bounds of the first line of the field in `chars`.
fn find_field_line(chars: &Vec<char>, field: Field) -> (r: Option<(usize, usize)>)
    ensures
        match r {
            None => first_field_line(chars@, field, 0) is None,
            Some((a, b)) => a <= b <= chars@.len() && first_field_line(chars@, field, 0) == Some(
                chars@.subrange(a as int, b as int),
            ),
        },
{
    let key = key_chars(field);
    let mut start: usize = 0;
    loop
        invariant
            key@ == field_key(field),
            start <= chars@.len(),
            first_field_line(chars@, field, 0) == first_field_line(chars@, field, start as int),
        decreases chars@.len() - start,
    {
        let end = find_char(chars, '\n', start);
        proof {
            lemma_index_of_bounds(chars@, '\n', start as int);
        }
        let (ta, tb) = strip_range(chars, start, end, Strip::Whitespace);
        if starts_with_at(chars, ta, tb, &key) {
            return Some((start, end));
        }
        if end >= chars.len() {
            return None;
        }
        start = end + 1;
    }
}

/// The range of the value in `chars[lo..hi]`, a field line.
fn value_range(chars: &Vec<char>, lo: usize, hi: usize) -> (r: Option<(usize, usize)>)
    requires
        lo <= hi <= chars@.len(),
    ensures
        match r {
            None => field_value(chars@.subrange(lo as int, hi as int)) is None,
            Some((a, b)) => lo <= a <= b <= hi && field_value(
                chars@.subrange(lo as int, hi as int),
            ) == Some(chars@.subrange(a as int, b as int)),
        },
{
    let ghost line = chars@.subrange(lo as int, hi as int);
    let mut eq: usize = lo;
    while eq < hi && chars[eq] != '='
        invariant
            lo <= eq <= hi <= chars@.len(),
            forall|k: int| lo <= k < eq ==> chars@[k] != '=',
        decreases hi - eq,
    {
        eq = eq + 1;
    }
    proof {
        lemma_index_of_first(line, '=', eq - lo);
    }
    if eq >= hi {
        return None;
    }
    proof {
        assert(line.subrange(eq - lo + 1, line.len() as int) =~= chars@.subrange(eq + 1, hi as int));
    }
    let (ta, tb) = strip_range(chars, eq + 1, hi, Strip::Whitespace);
    let (qa, qb) = strip_range(chars, ta, tb, Strip::Quote);
    Some((qa, qb))
}

/// `index_of` finds the first occurrence.
proof fn lemma_index_of_first(s: Seq<char>, c: char, i: int)
    requires
        0 <= i <= s.len(),
        forall|k: int| 0 <= k < i ==> s[k] != c,
        i < s.len() ==> s[i] == c,
    ensures
        index_of(s, c, 0) == i,
{
    lemma_index_of_first_from(s, c, 0, i);
}

proof fn lemma_index_of_first_from(s: Seq<char>, c: char, from: int, i: int)
    requires
        0 <= from <= i <= s.len(),
        forall|k: int| from <= k < i ==> s[k] != c,
        i < s.len() ==> s[i] == c,
    ensures
        index_of(s, c, from) == i,
    decreases i - from,
{
    if from < i {
        lemma_index_of_first_from(s, c, from + 1, i);
    }
}

/// Lines joined into text, each but the last followed by `'\n'`.
pub open spec fn join_lines(lines: Seq<Seq<char>>) -> Seq<char>
    decreases lines.len(),
{
    if lines.len() == 0 {
        Seq::empty()
    } else if lines.len() == 1 {
        lines[0]
    } else {
        lines[0] + seq!['\n'] + join_lines(lines.drop_first())
    }
}

/// The first of the lines that is a line of the field.
pub open spec fn first_field_line_of(lines: Seq<Seq<char>>, field: Field) -> Option<Seq<char>>
    decreases lines.len(),
{
    if lines.len() == 0 {
        None
    } else if is_field_line(lines[0], field) {
        Some(lines[0])
    } else {
        first_field_line_of(lines.drop_first(), field)
    }
}

/// A well-formed field line, `name = "value"` or `version = "value"`, with
/// whitespace before and after it.
pub open spec fn quoted_field_line(
    field: Field,
    indent: Seq<char>,
    value: Seq<char>,
    trailing: Seq<char>,
) -> Seq<char> {
    indent + (field_key(field) + seq![' ', '"'] + value + seq!['"']) + trailing
}

/// A value that a quoted field line carries as it is: no double quote and
/// no line break.
pub open spec fn plain_value(value: Seq<char>) -> bool {
    forall|k: int| 0 <= k < value.len() ==> value[k] != '"' && value[k] != '\n'
}

proof fn lemma_index_of_shift(p: Seq<char>, s: Seq<char>, c: char, k: int)
    requires
        0 <= k <= s.len(),
    ensures
        index_of(p + s, c, p.len() + k) == p.len() + index_of(s, c, k),
    decreases s.len() - k,
{
    if k < s.len() {
        assert((p + s)[p.len() + k] == s[k]);
        lemma_index_of_shift(p, s, c, k + 1);
    }
}

proof fn lemma_first_field_line_shift(p: Seq<char>, s: Seq<char>, field: Field, k: int)
    requires
        0 <= k <= s.len(),
    ensures
        first_field_line(p + s, field, p.len() + k) == first_field_line(s, field, k),
    decreases s.len() - k,
{
    lemma_index_of_shift(p, s, '\n', k);
    lemma_index_of_bounds(s, '\n', k);
    let end = index_of(s, '\n', k);
    assert((p + s).subrange(p.len() + k, p.len() + end) =~= s.subrange(k, end));
    if end < s.len() {
        lemma_first_field_line_shift(p, s, field, end + 1);
    }
}

proof fn lemma_no_newline_index(line: Seq<char>, rest: Seq<char>)
    requires
        forall|k: int| 0 <= k < line.len() ==> line[k] != '\n',
        rest.len() > 0 ==> rest[0] == '\n',
    ensures
        index_of(line + rest, '\n', 0) == line.len(),
{
    lemma_index_of_first_from(line + rest, '\n', 0, line.len() as int);
}

/// Scanning the joined text finds the same line as scanning the lines.
proof fn lemma_scan_joined(lines: Seq<Seq<char>>, field: Field)
    requires
        forall|i: int, k: int|
            0 <= i < lines.len() && 0 <= k < lines[i].len() ==> lines[i][k] != '\n',
    ensures
        first_field_line(join_lines(lines), field, 0) == first_field_line_of(lines, field),
    decreases lines.len(),
{
    let text = join_lines(lines);
    if lines.len() == 0 {
        assert(text.subrange(0, 0) =~= Seq::<char>::empty());
        assert(trim(Seq::<char>::empty()) =~= Seq::<char>::empty());
        assert(field_key(field).len() > 0);
        assert(!is_field_line(Seq::<char>::empty(), field));
        assert(first_field_line(text, field, 0) is None);
    } else if lines.len() == 1 {
        lemma_no_newline_index(lines[0], Seq::empty());
        assert(lines[0] + Seq::<char>::empty() =~= lines[0]);
        assert(text == lines[0]);
        assert(text.subrange(0, text.len() as int) =~= text);
        assert(first_field_line_of(lines.drop_first(), field) is None);
    } else {
        let head = lines[0] + seq!['\n'];
        let rest = join_lines(lines.drop_first());
        assert(text =~= lines[0] + (seq!['\n'] + rest));
        lemma_no_newline_index(lines[0], seq!['\n'] + rest);
        assert(text.subrange(0, lines[0].len() as int) =~= lines[0]);
        assert(text =~= head + rest);
        lemma_first_field_line_shift(head, rest, field, 0);
        lemma_scan_joined(lines.drop_first(), field);
    }
}

proof fn lemma_first_of_lines(lines: Seq<Seq<char>>, field: Field, i: int)
    requires
        0 <= i < lines.len(),
        is_field_line(lines[i], field),
        forall|k: int| 0 <= k < i ==> !is_field_line(#[trigger] lines[k], field),
    ensures
        first_field_line_of(lines, field) == Some(lines[i]),
    decreases i,
{
    if i > 0 {
        lemma_first_of_lines(lines.drop_first(), field, i - 1);
    }
}

/// A quoted field line is a line of its field and carries its value.
proof fn lemma_quoted_field_line(
    field: Field,
    indent: Seq<char>,
    value: Seq<char>,
    trailing: Seq<char>,
)
    requires
        all_stripped(indent, Strip::Whitespace),
        all_stripped(trailing, Strip::Whitespace),
        plain_value(value),
    ensures
        is_field_line(quoted_field_line(field, indent, value, trailing), field),
        field_value(quoted_field_line(field, indent, value, trailing)) == Some(value),
{
    let line = quoted_field_line(field, indent, value, trailing);
    let key = field_key(field);
    let quoted = seq!['"'] + value + seq!['"'];
    let core = key + seq![' ', '"'] + value + seq!['"'];
    assert(core =~= key + (seq![' '] + quoted));
    lemma_strip_start_prefix(indent, core + trailing, Strip::Whitespace);
    assert(line =~= indent + (core + trailing));
    assert((core + trailing)[0] == key[0]);
    assert(!is_white(key[0]));
    assert(strip_start(core + trailing, Strip::Whitespace) == core + trailing);
    lemma_strip_end_suffix(core, trailing, Strip::Whitespace);
    assert(core.last() == '"');
    assert(!is_white('"'));
    assert(strip_end(core, Strip::Whitespace) == core);
    assert(trim(line) == core);
    assert(core.subrange(0, key.len() as int) =~= key);
    let eq = indent.len() + key.len() - 1;
    assert forall|k: int| 0 <= k < eq implies line[k] != '=' by {
        if k < indent.len() {
            assert(line[k] == indent[k]);
            assert(is_white(indent[k]));
        } else {
            assert(line[k] == key[k - indent.len()]);
        }
    }
    assert(line[eq] == '=');
    lemma_index_of_first(line, '=', eq);
    let segment = line.subrange(eq + 1, line.len() as int);
    assert(segment =~= seq![' '] + (quoted + trailing));
    assert(segment.drop_first() =~= quoted + trailing);
    assert(segment[0] == ' ');
    assert(is_white(' '));
    assert((quoted + trailing)[0] == '"');
    assert(strip_start(quoted + trailing, Strip::Whitespace) == quoted + trailing);
    assert(strip_start(segment, Strip::Whitespace) == quoted + trailing);
    lemma_strip_end_suffix(quoted, trailing, Strip::Whitespace);
    assert(quoted.last() == '"');
    assert(strip_end(quoted, Strip::Whitespace) == quoted);
    assert(trim(segment) == quoted);
    assert(quoted.drop_first() =~= value + seq!['"']);
    if value.len() == 0 {
        let tail = value + seq!['"'];
        assert(tail =~= seq!['"']);
        assert(tail.drop_first() =~= Seq::<char>::empty());
        assert(strip_start(Seq::<char>::empty(), Strip::Quote) == Seq::<char>::empty());
        assert(strip_start(tail, Strip::Quote) == Seq::<char>::empty());
        assert(strip_start(quoted, Strip::Quote) == Seq::<char>::empty());
        assert(strip_end(Seq::<char>::empty(), Strip::Quote) == Seq::<char>::empty());
        assert(unquote(quoted) =~= value);
    } else {
        let tail = value + seq!['"'];
        assert(tail[0] == value[0]);
        assert(strip_start(quoted, Strip::Quote) == strip_start(tail, Strip::Quote));
        assert(strip_start(tail, Strip::Quote) == tail);
        assert(tail.drop_last() =~= value);
        assert(tail.last() == '"');
        assert(value.last() == value[value.len() - 1]);
        assert(strip_end(value, Strip::Quote) == value);
        assert(strip_end(tail, Strip::Quote) == value);
        assert(unquote(quoted) == value);
    }
}

/// A manifest whose lines include `name = "x"` and `version = "y"`, each
/// before any other line of its field and each with any whitespace around
/// it, reads as exactly `("x", "y")`, whatever the other lines hold.
pub proof fn lemma_well_formed_manifest(
    lines: Seq<Seq<char>>,
    name_at: int,
    name_indent: Seq<char>,
    name: Seq<char>,
    name_trailing: Seq<char>,
    version_at: int,
    version_indent: Seq<char>,
    version: Seq<char>,
    version_trailing: Seq<char>,
)
    requires
        forall|i: int, k: int|
            0 <= i < lines.len() && 0 <= k < lines[i].len() ==> lines[i][k] != '\n',
        0 <= name_at < lines.len(),
        0 <= version_at < lines.len(),
        lines[name_at] == quoted_field_line(Field::Name, name_indent, name, name_trailing),
        lines[version_at] == quoted_field_line(
            Field::Version,
            version_indent,
            version,
            version_trailing,
        ),
        all_stripped(name_indent, Strip::Whitespace),
        all_stripped(name_trailing, Strip::Whitespace),
        all_stripped(version_indent, Strip::Whitespace),
        all_stripped(version_trailing, Strip::Whitespace),
        plain_value(name),
        plain_value(version),
        forall|k: int| 0 <= k < name_at ==> !is_field_line(#[trigger] lines[k], Field::Name),
        forall|k: int|
            0 <= k < version_at ==> !is_field_line(#[trigger] lines[k], Field::Version),
    ensures
        scan_manifest(join_lines(lines)) == Ok::<(Seq<char>, Seq<char>), ManifestError>(
            (name, version),
        ),
{
    lemma_quoted_field_line(Field::Name, name_indent, name, name_trailing);
    lemma_quoted_field_line(Field::Version, version_indent, version, version_trailing);
    lemma_first_of_lines(lines, Field::Name, name_at);
    lemma_first_of_lines(lines, Field::Version, version_at);
    lemma_scan_joined(lines, Field::Name);
    lemma_scan_joined(lines, Field::Version);
}

/// Reads the package's name and version from the manifest text.
pub fn read_package_metadata(manifest: &str) -> (r: Result<PackageMetadata, ManifestError>)
    ensures
        match r {
            Ok(m) => scan_manifest(manifest@) == Ok::<(Seq<char>, Seq<char>), ManifestError>(
                (m.name@, m.version@),
            ),
            Err(e) => scan_manifest(manifest@) == Err::<(Seq<char>, Seq<char>), ManifestError>(
                e,
            ),
        },
{
    let chars = chars_of(manifest);
    let name_line = match find_field_line(&chars, Field::Name) {
        None => return Err(ManifestError::MissingName),
        Some(bounds) => bounds,
    };
    let version_line = match find_field_line(&chars, Field::Version) {
        None => return Err(ManifestError::MissingVersion),
        Some(bounds) => bounds,
    };
    let name = match value_range(&chars, name_line.0, name_line.1) {
        None => return Err(ManifestError::MalformedName),
        Some((a, b)) => substring(manifest, a, b),
    };
    let version = match value_range(&chars, version_line.0, version_line.1) {
        None => return Err(ManifestError::MalformedVersion),
        Some((a, b)) => substring(manifest, a, b),
    };
    Ok(PackageMetadata { name, version })
}

} // verus!
