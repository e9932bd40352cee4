use vstd::prelude::*;
use vstd::string::StrSliceExecFns;

verus! {

/// Serialization format of a configuration file. Each variant is bound to one
/// external codec by the host application.
#[derive(Clone, Copy, Debug, PartialEq, Eq, Structural)]
pub enum ConfigFormat {
    Json,
    Toml,
    Xml,
    Yaml,
    Ron,
}

/// The code point of `c`, with an ASCII upper-case letter folded to lower case.
pub open spec fn lower_code(c: char) -> int {
    if 65 <= c as int && c as int <= 90 {
        c as int + 32
    } else {
        c as int
    }
}

/// `a` and `b` are the same character up to ASCII case.
pub open spec fn chars_eq_ci(a: char, b: char) -> bool {
    lower_code(a) == lower_code(b)
}

/// `a` and `b` are the same character sequence up to ASCII case.
pub open spec fn seq_eq_ci(a: Seq<char>, b: Seq<char>) -> bool {
    a.len() == b.len() && (forall|i: int| 0 <= i < a.len() ==> chars_eq_ci(a[i], b[i]))
}

/// Which format a file extension resolves to: the extension is matched
/// case-insensitively against the recognized names.
pub open spec fn spec_from_extension(ext: Seq<char>) -> Option<ConfigFormat> {
    if seq_eq_ci(ext, "json"@) {
        Some(ConfigFormat::Json)
    } else if seq_eq_ci(ext, "toml"@) {
        Some(ConfigFormat::Toml)
    } else if seq_eq_ci(ext, "xml"@) {
        Some(ConfigFormat::Xml)
    } else if seq_eq_ci(ext, "yaml"@) || seq_eq_ci(ext, "yml"@) {
        Some(ConfigFormat::Yaml)
    } else if seq_eq_ci(ext, "ron"@) {
        Some(ConfigFormat::Ron)
    } else {
        None
    }
}

/// Index of the last occurrence of `ch` in `s`, or -1 when `ch` does not occur.
pub open spec fn last_index_of(s: Seq<char>, ch: char) -> int
    decreases s.len(),
{
    if s.len() == 0 {
        -1
    } else if s[s.len() - 1] == ch {
        s.len() - 1
    } else {
        last_index_of(s.drop_last(), ch)
    }
}

/// `p` with trailing path separators removed.
pub open spec fn strip_trailing_separators(p: Seq<char>) -> Seq<char>
    decreases p.len(),
{
    if p.len() > 0 && p[p.len() - 1] == '/' {
        strip_trailing_separators(p.drop_last())
    } else {
        p
    }
}

/// The file name of a path: what follows its last path separator, trailing
/// separators ignored.
pub open spec fn spec_file_name(p: Seq<char>) -> Seq<char> {
    let q = strip_trailing_separators(p);
    q.subrange(last_index_of(q, '/') + 1, q.len() as int)
}

/// The extension of a path: the part of its file name after the name's last
/// dot. A name without a dot, or with a dot only at its head (a hidden file),
/// has no extension.
pub open spec fn spec_extension_of(p: Seq<char>) -> Option<Seq<char>> {
    let name = spec_file_name(p);
    let d = last_index_of(name, '.');
    if d <= 0 {
        None
    } else {
        Some(name.subrange(d + 1, name.len() as int))
    }
}

/// Which format a path resolves to: the one its extension names, if any.
pub open spec fn spec_from_path(p: Seq<char>) -> Option<ConfigFormat> {
    match spec_extension_of(p) {
        Some(ext) => spec_from_extension(ext),
        None => None,
    }
}

proof fn lemma_last_index_of_bounds(s: Seq<char>, ch: char)
    ensures
        -1 <= last_index_of(s, ch) < s.len(),
    decreases s.len(),
{
    if s.len() > 0 && s[s.len() - 1] != ch {
        lemma_last_index_of_bounds(s.drop_last(), ch);
    }
}

/// Fold one character to lower case, at the ASCII level.
fn lower_code_exec(c: char) -> (r: u32)
    ensures
        r as int == lower_code(c),
{
    let u = c as u32;
    if 65 <= u && u <= 90 {
        u + 32
    } else {
        u
    }
}

/// Compare two strings for equality ignoring ASCII case.
fn str_eq_ci(a: &str, b: &str) -> (r: bool)
    ensures
        r == seq_eq_ci(a@, b@),
{
    let a_len = a.unicode_len();
    if a_len != b.unicode_len() {
        return false;
    }
    for i in 0..a_len
        invariant
            a_len == a@.len(),
            a_len == b@.len(),
            forall|j: int| 0 <= j < i ==> chars_eq_ci(a@[j], b@[j]),
    {
        if lower_code_exec(a.get_char(i)) != lower_code_exec(b.get_char(i)) {
            return false;
        }
    }
    true
}

/// The extension of `path`, as `spec_extension_of` describes it.
pub fn extension_of(path: &str) -> (r: Option<&str>)
    ensures
        (match r {
            Some(e) => spec_extension_of(path@) == Some(e@),
            None => spec_extension_of(path@) is None,
        }),
{
    let len = path.unicode_len();

    // Ignore trailing path separators.
    let mut end = len;
    proof {
        assert(path@.subrange(0, len as int) =~= path@);
    }
    while end > 0 && path.get_char(end - 1) == '/'
        invariant
            end <= len,
            len == path@.len(),
            strip_trailing_separators(path@) == strip_trailing_separators(
                path@.subrange(0, end as int),
            ),
        decreases end,
    {
        proof {
            assert(path@.subrange(0, end as int).drop_last() =~= path@.subrange(
                0,
                (end - 1) as int,
            ));
        }
        end = end - 1;
    }
    let ghost q = path@.subrange(0, end as int);
    proof {
        assert(strip_trailing_separators(q) == q);
    }

    // Find the last path separator before `end`; the file name follows it.
    let mut start = end;
    while start > 0 && path.get_char(start - 1) != '/'
        invariant
            start <= end <= len,
            len == path@.len(),
            last_index_of(q, '/') == last_index_of(path@.subrange(0, start as int), '/'),
            q == path@.subrange(0, end as int),
        decreases start,
    {
        proof {
            assert(path@.subrange(0, start as int).drop_last() =~= path@.subrange(
                0,
                (start - 1) as int,
            ));
        }
        start = start - 1;
    }
    let ghost name = spec_file_name(path@);
    proof {
        lemma_last_index_of_bounds(q, '/');
        assert(last_index_of(q, '/') == start - 1);
        assert(name =~= path@.subrange(start as int, end as int));
        assert(name.subrange(0, (end - start) as int) =~= name);
    }

    // Find the last dot of the file name; the extension follows it.
    let mut dot = end;
    while dot > start && path.get_char(dot - 1) != '.'
        invariant
            start <= dot <= end <= len,
            len == path@.len(),
            name == path@.subrange(start as int, end as int),
            last_index_of(name, '.') == last_index_of(
                name.subrange(0, (dot - start) as int),
                '.',
            ),
        decreases dot,
    {
        proof {
            assert(name.subrange(0, (dot - start) as int).drop_last() =~= name.subrange(
                0,
                (dot - 1 - start) as int,
            ));
            assert(name.subrange(0, (dot - start) as int)[(dot - 1 - start) as int] == path@[dot
                - 1]);
        }
        dot = dot - 1;
    }
    if dot <= start + 1 {
        // No dot in the name, or a dot only at its head: no extension.
        proof {
            if dot == start {
                assert(name.subrange(0, 0) =~= Seq::<char>::empty());
            }
        }
        None
    } else {
        proof {
            assert(last_index_of(name, '.') == dot - 1 - start);
            assert(name.subrange((dot - start) as int, name.len() as int) =~= path@.subrange(
                dot as int,
                end as int,
            ));
        }
        Some(path.substring_char(dot, end))
    }
}

impl ConfigFormat {
    /// Resolve the format from a file extension (without its leading dot),
    /// matched case-insensitively.
    pub fn from_extension(extension: &str) -> (r: Option<Self>)
        ensures
            r == spec_from_extension(extension@),
    {
        if str_eq_ci(extension, "json") {
            Some(ConfigFormat::Json)
        } else if str_eq_ci(extension, "toml") {
            Some(ConfigFormat::Toml)
        } else if str_eq_ci(extension, "xml") {
            Some(ConfigFormat::Xml)
        } else if str_eq_ci(extension, "yaml") || str_eq_ci(extension, "yml") {
            Some(ConfigFormat::Yaml)
        } else if str_eq_ci(extension, "ron") {
            Some(ConfigFormat::Ron)
        } else {
            None
        }
    }

    /// Resolve the format from a path, by the extension of its file name.
    pub fn from_path(path: &str) -> (r: Option<Self>)
        ensures
            r == spec_from_path(path@),
    {
        match extension_of(path) {
            Some(ext) => Self::from_extension(ext),
            None => None,
        }
    }
}

proof fn lemma_seq_eq_ci_common(a: Seq<char>, b: Seq<char>, t: Seq<char>)
    requires
        seq_eq_ci(a, b),
    ensures
        seq_eq_ci(a, t) == seq_eq_ci(b, t),
{
    if seq_eq_ci(a, t) {
        assert forall|i: int| 0 <= i < b.len() implies chars_eq_ci(b[i], t[i]) by {
            assert(chars_eq_ci(a[i], b[i]));
            assert(chars_eq_ci(a[i], t[i]));
        }
    }
    if seq_eq_ci(b, t) {
        assert forall|i: int| 0 <= i < a.len() implies chars_eq_ci(a[i], t[i]) by {
            assert(chars_eq_ci(a[i], b[i]));
            assert(chars_eq_ci(b[i], t[i]));
        }
    }
}

/// Extension case-insensitivity: extensions that are equal up to ASCII case
/// resolve to the same format.
pub proof fn lemma_from_extension_case_insensitive(e1: Seq<char>, e2: Seq<char>)
    requires
        seq_eq_ci(e1, e2),
    ensures
        spec_from_extension(e1) == spec_from_extension(e2),
{
    lemma_seq_eq_ci_common(e1, e2, "json"@);
    lemma_seq_eq_ci_common(e1, e2, "toml"@);
    lemma_seq_eq_ci_common(e1, e2, "xml"@);
    lemma_seq_eq_ci_common(e1, e2, "yaml"@);
    lemma_seq_eq_ci_common(e1, e2, "yml"@);
    lemma_seq_eq_ci_common(e1, e2, "ron"@);
}

proof fn lemma_ci_fixpoint(c: char, d: char)
    requires
        chars_eq_ci(c, d),
        !(97 <= d as int <= 122),
        !(65 <= d as int <= 90),
    ensures
        c == d,
{
}

proof fn lemma_drop_last_ci(p1: Seq<char>, p2: Seq<char>)
    requires
        seq_eq_ci(p1, p2),
        p1.len() > 0,
    ensures
        seq_eq_ci(p1.drop_last(), p2.drop_last()),
{
    assert forall|i: int| 0 <= i < p1.len() - 1 implies chars_eq_ci(
        p1.drop_last()[i],
        p2.drop_last()[i],
    ) by {
        assert(chars_eq_ci(p1[i], p2[i]));
    }
}

proof fn lemma_strip_ci(p1: Seq<char>, p2: Seq<char>)
    requires
        seq_eq_ci(p1, p2),
    ensures
        seq_eq_ci(strip_trailing_separators(p1), strip_trailing_separators(p2)),
    decreases p1.len(),
{
    if p1.len() > 0 {
        let l = p1.len() - 1;
        assert(chars_eq_ci(p1[l], p2[l]));
        if p1[l] == '/' {
            lemma_ci_fixpoint(p2[l], '/');
            lemma_drop_last_ci(p1, p2);
            lemma_strip_ci(p1.drop_last(), p2.drop_last());
        } else if p2[l] == '/' {
            lemma_ci_fixpoint(p1[l], '/');
        }
    }
}

proof fn lemma_last_index_ci(p1: Seq<char>, p2: Seq<char>, ch: char)
    requires
        seq_eq_ci(p1, p2),
        !(97 <= ch as int <= 122),
        !(65 <= ch as int <= 90),
    ensures
        last_index_of(p1, ch) == last_index_of(p2, ch),
    decreases p1.len(),
{
    if p1.len() > 0 {
        let l = p1.len() - 1;
        assert(chars_eq_ci(p1[l], p2[l]));
        if p1[l] == ch {
            lemma_ci_fixpoint(p2[l], ch);
        } else if p2[l] == ch {
            lemma_ci_fixpoint(p1[l], ch);
        } else {
            lemma_drop_last_ci(p1, p2);
            lemma_last_index_ci(p1.drop_last(), p2.drop_last(), ch);
        }
    }
}

proof fn lemma_subrange_ci(p1: Seq<char>, p2: Seq<char>, i: int, j: int)
    requires
        seq_eq_ci(p1, p2),
        0 <= i <= j <= p1.len(),
    ensures
        seq_eq_ci(p1.subrange(i, j), p2.subrange(i, j)),
{
    assert forall|k: int| 0 <= k < j - i implies chars_eq_ci(
        p1.subrange(i, j)[k],
        p2.subrange(i, j)[k],
    ) by {
        assert(chars_eq_ci(p1[i + k], p2[i + k]));
    }
}

/// Path case-insensitivity: paths that are equal up to ASCII case resolve to
/// the same format.
pub proof fn lemma_from_path_case_insensitive(p1: Seq<char>, p2: Seq<char>)
    requires
        seq_eq_ci(p1, p2),
    ensures
        spec_from_path(p1) == spec_from_path(p2),
{
    lemma_strip_ci(p1, p2);
    let q1 = strip_trailing_separators(p1);
    let q2 = strip_trailing_separators(p2);
    lemma_last_index_ci(q1, q2, '/');
    lemma_last_index_of_bounds(q1, '/');
    let s = last_index_of(q1, '/') + 1;
    lemma_subrange_ci(q1, q2, s, q1.len() as int);
    let n1 = spec_file_name(p1);
    let n2 = spec_file_name(p2);
    lemma_last_index_ci(n1, n2, '.');
    lemma_last_index_of_bounds(n1, '.');
    let d = last_index_of(n1, '.');
    if d > 0 {
        lemma_subrange_ci(n1, n2, d + 1, n1.len() as int);
        lemma_from_extension_case_insensitive(
            n1.subrange(d + 1, n1.len() as int),
            n2.subrange(d + 1, n2.len() as int),
        );
    }
}

} // verus!
