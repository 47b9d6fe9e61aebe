//! Small helpers on bytes and text.

use vstd::prelude::*;
use vstd::utf8::valid_utf8;
use vstd::slice::{slice_subrange, slice_to_vec};
use vstd::string::StringSliceAdditionalSpecFns;
use vstd::utf8::decode_utf8;
use crate::langs::{get_from_emacs_mode, get_from_ext, lang_name, lang_of_ext, lang_of_mode, LANG};

verus! {

/// Tells whether two byte strings hold the same bytes.
pub fn bytes_equal(a: &[u8], b: &[u8]) -> (r: bool)
    ensures
        r == (a@ == b@),
{
    if a.len() != b.len() {
        return false;
    }
    let n = a.len();
    let mut i: usize = 0;
    while i < n
        invariant
            n == a@.len(),
            n == b@.len(),
            i <= n,
            forall|j: int| 0 <= j < i ==> a@[j] == b@[j],
        decreases n - i,
    {
        if a[i] != b[i] {
            return false;
        }
        i += 1;
    }
    assert(a@ =~= b@);
    true
}

/// Reads bytes as text with `std::str::from_utf8`, which succeeds on
/// well-formed UTF-8 and on nothing else, and then yields the text that the
/// bytes encode.
#[verifier::external_body]
pub(crate) fn str_from_utf8(bytes: &[u8]) -> (r: Option<&str>)
    ensures
        r is Some <==> valid_utf8(bytes@),
        r is Some ==> r->0.spec_bytes() == bytes@,
{
    std::str::from_utf8(bytes).ok()
}

/// Tells whether the bytes are well-formed UTF-8.
pub fn is_utf8(bytes: &[u8]) -> (r: bool)
    ensures
        r == valid_utf8(bytes@),
{
    str_from_utf8(bytes).is_some()
}

/// Tells whether two texts hold the same characters.
pub fn str_eq(a: &str, b: &str) -> (r: bool)
    ensures
        r == (a@ == b@),
{
    let r = bytes_equal(a.as_bytes(), b.as_bytes());
    proof {
        vstd::utf8::encode_utf8_decode_utf8(a@);
        vstd::utf8::encode_utf8_decode_utf8(b@);
    }
    r
}

/// Whether a byte ends a line.
pub open spec fn is_break(c: u8) -> bool {
    c == 10 || c == 13
}

/// The bytes without the line breaks at their end.
pub open spec fn without_trailing_breaks(s: Seq<u8>) -> Seq<u8>
    decreases s.len(),
{
    if s.len() > 0 && is_break(s.last()) {
        without_trailing_breaks(s.drop_last())
    } else {
        s
    }
}

/// Replaces \n and \r ending characters with a single generic \n
pub fn remove_blank_lines(data: &mut Vec<u8>)
    ensures
        final(data)@ == without_trailing_breaks(old(data)@).push(10u8),
{
    let mut len = data.len();
    assert(data@.take(len as int) =~= data@);
    while len > 0 && (data[len - 1] == 10 || data[len - 1] == 13)
        invariant
            len <= data@.len(),
            data@ == old(data)@,
            without_trailing_breaks(data@.take(len as int)) == without_trailing_breaks(old(data)@),
        decreases len,
    {
        proof {
            assert(data@.take(len as int).drop_last() =~= data@.take(len - 1));
        }
        len -= 1;
    }
    assert(data@.take(len as int) =~= data@.subrange(0, len as int));
    data.truncate(len);
    data.push(10u8);
}

/// Finds an editor mode written the first way: `-*- ... mode: name`.
pub const FIRST_EMACS_EXPRESSION: &'static str = r"(?i)-\*-.*[^-\w]mode\s*:\s*([^:;\s]+)";

/// Finds an editor mode written the second way: `-*- name -*-`.
pub const SECOND_EMACS_EXPRESSION: &'static str = r"-\*-\s*([^:;\s]+)\s*-\*-";

/// Finds a file type written for vim: `vim: ... ft=name`.
pub const VIM_EXPRESSION: &'static str = r"(?i)vim\s*:.*[^\w]ft\s*=\s*([^:\s]+)";

/// What the first group of the first match of the regular expression
/// `pattern` in `line` holds; `None` where the expression is not valid,
/// nothing matches, or the group took no part in the match.
pub uninterp spec fn first_group_of(pattern: Seq<char>, line: Seq<u8>) -> Option<Seq<u8>>;

/// The text in lower case, as Unicode defines it.
pub uninterp spec fn lowercase_of(text: Seq<char>) -> Seq<char>;

/// Searches `line` with `regex::bytes::Regex`: compiles `pattern`, takes the
/// first match, and returns what its first group holds. The result is
/// what `first_group_of` names.
#[verifier::external_body]
fn first_group(pattern: &str, line: &[u8]) -> (r: Option<Vec<u8>>)
    ensures
        r is Some <==> first_group_of(pattern@, line@) is Some,
        r is Some ==> r->0@ == first_group_of(pattern@, line@)->0,
{
    let re = regex::bytes::Regex::new(pattern).ok()?;
    let caps = re.captures_iter(line).next()?;
    caps.get(1).map(|m| m.as_bytes().to_vec())
}

/// Puts a text in lower case with `str::to_lowercase`. The result is what
/// `lowercase_of` names.
#[verifier::external_body]
fn lowercase(text: &str) -> (r: String)
    ensures
        r@ == lowercase_of(text@),
{
    text.to_lowercase()
}

/// The position of the first `byte` at or after `from`; the length where there is none.
pub open spec fn next_index_of(buf: Seq<u8>, from: int, byte: u8) -> int
    decreases buf.len() - from,
{
    if from < 0 || from >= buf.len() {
        buf.len() as int
    } else if buf[from] == byte {
        from
    } else {
        next_index_of(buf, from + 1, byte)
    }
}

/// The position of the last `byte` before `to`; -1 where there is none.
pub open spec fn last_index_of(buf: Seq<u8>, to: int, byte: u8) -> int
    decreases to,
{
    if to <= 0 || to > buf.len() {
        -1
    } else if buf[to - 1] == byte {
        to - 1
    } else {
        last_index_of(buf, to - 1, byte)
    }
}

/// Finds the first `byte` at or after `from`.
fn find_next(buf: &[u8], from: usize, byte: u8) -> (r: usize)
    requires
        from <= buf@.len(),
    ensures
        r == next_index_of(buf@, from as int, byte),
        from <= r <= buf@.len(),
{
    let n = buf.len();
    let mut j = from;
    while j < n && buf[j] != byte
        invariant
            n == buf@.len(),
            from <= j <= n,
            next_index_of(buf@, j as int, byte) == next_index_of(buf@, from as int, byte),
        decreases n - j,
    {
        j += 1;
    }
    j
}

/// Finds the position after the last `byte` before `to`; zero where there is none.
fn find_after_last(buf: &[u8], to: usize, byte: u8) -> (r: usize)
    requires
        to <= buf@.len(),
    ensures
        r == last_index_of(buf@, to as int, byte) + 1,
        r <= to,
{
    let mut j = to;
    while j > 0 && buf[j - 1] != byte
        invariant
            j <= to <= buf@.len(),
            last_index_of(buf@, j as int, byte) == last_index_of(buf@, to as int, byte),
        decreases j,
    {
        j -= 1;
    }
    j
}

/// What the three searches found in one line.
#[derive(Debug)]
pub struct LineSearch {
    /// The mode found in the first Emacs form.
    pub first: Option<Vec<u8>>,
    /// The mode found in the second Emacs form.
    pub second: Option<Vec<u8>>,
    /// The file type found for vim.
    pub vim: Option<Vec<u8>>,
}

/// What a `LineSearch` stands for.
pub struct LineFound {
    /// The mode found in the first Emacs form.
    pub first: Option<Seq<u8>>,
    /// The mode found in the second Emacs form.
    pub second: Option<Seq<u8>>,
    /// The file type found for vim.
    pub vim: Option<Seq<u8>>,
}

/// The bytes of an optional byte string.
pub open spec fn bytes_of(o: Option<Vec<u8>>) -> Option<Seq<u8>> {
    match o {
        Some(v) => Some(v@),
        None => None,
    }
}

impl View for LineSearch {
    type V = LineFound;

    open spec fn view(&self) -> LineFound {
        LineFound {
            first: bytes_of(self.first),
            second: bytes_of(self.second),
            vim: bytes_of(self.vim),
        }
    }
}

/// What the searches found in each line of a list.
pub open spec fn found_in(lines: Seq<LineSearch>) -> Seq<LineFound> {
    lines.map_values(|s: LineSearch| s@)
}

/// What a search found in each line of a list.
pub open spec fn vim_found_in(lines: Seq<Option<Vec<u8>>>) -> Seq<Option<Seq<u8>>> {
    lines.map_values(|o: Option<Vec<u8>>| bytes_of(o))
}

/// The mode a line names: in the first Emacs form, else in the second, else for vim.
pub open spec fn line_choice(s: LineFound) -> Option<Seq<u8>> {
    if s.first is Some {
        s.first
    } else if s.second is Some {
        s.second
    } else {
        s.vim
    }
}

/// The mode named by the first of the lines that names one.
pub open spec fn head_choice(head: Seq<LineFound>) -> Option<Seq<u8>>
    decreases head.len(),
{
    if head.len() == 0 {
        None
    } else if line_choice(head[0]) is Some {
        line_choice(head[0])
    } else {
        head_choice(head.drop_first())
    }
}

/// The file type named by the first of the lines that names one.
pub open spec fn tail_choice(tail: Seq<Option<Seq<u8>>>) -> Option<Seq<u8>>
    decreases tail.len(),
{
    if tail.len() == 0 {
        None
    } else if tail[0] is Some {
        tail[0]
    } else {
        tail_choice(tail.drop_first())
    }
}

/// The mode a source names, given what the searches found in its first
/// lines, from the first on, and what the search for vim found in its last
/// lines, from the last on: the first lines win over the last ones, an
/// earlier line over a later one among the first, a later over an earlier
/// among the last, and within a line the first Emacs form over the second
/// and that over vim.
pub open spec fn mode_choice(head: Seq<LineFound>, tail: Seq<Option<Seq<u8>>>) -> Option<Seq<u8>> {
    if head_choice(head) is Some {
        head_choice(head)
    } else {
        tail_choice(tail)
    }
}

/// Picks the mode a line names from what the searches found in it.
pub fn choose_in_line(s: &LineSearch) -> (r: Option<Vec<u8>>)
    ensures
        bytes_of(r) == line_choice(s@),
{
    match &s.first {
        Some(m) => Some(slice_to_vec(m.as_slice())),
        None => match &s.second {
            Some(m) => Some(slice_to_vec(m.as_slice())),
            None => match &s.vim {
                Some(m) => Some(slice_to_vec(m.as_slice())),
                None => None,
            },
        },
    }
}

/// Picks the mode a source names from what the searches found in its first
/// and in its last lines.
pub fn choose_mode(head: &Vec<LineSearch>, tail: &Vec<Option<Vec<u8>>>) -> (r: Option<Vec<u8>>)
    ensures
        bytes_of(r) == mode_choice(found_in(head@), vim_found_in(tail@)),
{
    let n = head.len();
    let mut j: usize = 0;
    assert(found_in(head@).skip(0) =~= found_in(head@));
    while j < n
        invariant
            n == head@.len(),
            j <= n,
            head_choice(found_in(head@).skip(j as int)) == head_choice(found_in(head@)),
        decreases n - j,
    {
        let chosen = choose_in_line(&head[j]);
        assert(found_in(head@).skip(j as int)[0] == head@[j as int]@);
        if chosen.is_some() {
            return chosen;
        }
        assert(found_in(head@).skip(j as int).drop_first() =~= found_in(head@).skip(j + 1));
        j += 1;
    }
    let m = tail.len();
    let mut j: usize = 0;
    assert(vim_found_in(tail@).skip(0) =~= vim_found_in(tail@));
    while j < m
        invariant
            m == tail@.len(),
            j <= m,
            head_choice(found_in(head@)) is None,
            tail_choice(vim_found_in(tail@).skip(j as int)) == tail_choice(vim_found_in(tail@)),
        decreases m - j,
    {
        assert(vim_found_in(tail@).skip(j as int)[0] == bytes_of(tail@[j as int]));
        match &tail[j] {
            Some(found) => {
                return Some(slice_to_vec(found.as_slice()));
            },
            None => {},
        }
        assert(vim_found_in(tail@).skip(j as int).drop_first() =~= vim_found_in(tail@).skip(
            j + 1,
        ));
        j += 1;
    }
    None
}

/// What the three searches find in a line.
pub open spec fn searched(line: Seq<u8>) -> LineFound {
    LineFound {
        first: first_group_of(FIRST_EMACS_EXPRESSION@, line),
        second: first_group_of(SECOND_EMACS_EXPRESSION@, line),
        vim: first_group_of(VIM_EXPRESSION@, line),
    }
}

/// What the searches find in the next `k` lines from `start` on.
pub open spec fn head_found(buf: Seq<u8>, start: int, k: nat) -> Seq<LineFound>
    decreases k,
{
    if k == 0 {
        Seq::empty()
    } else {
        let e = next_index_of(buf, start, 10);
        let line = seq![searched(buf.subrange(start, e))];
        if e >= buf.len() {
            line
        } else {
            line + head_found(buf, e + 1, (k - 1) as nat)
        }
    }
}

/// What the search for vim finds in the `k` lines before `end`, from the last on.
pub open spec fn tail_found(buf: Seq<u8>, end: int, k: nat) -> Seq<Option<Seq<u8>>>
    decreases k,
{
    if k == 0 {
        Seq::empty()
    } else {
        let s = last_index_of(buf, end, 10);
        let line = seq![first_group_of(VIM_EXPRESSION@, buf.subrange(s + 1, end))];
        if s < 0 {
            line
        } else {
            line + tail_found(buf, s, (k - 1) as nat)
        }
    }
}

/// A mode as text: in lower case, and none where it is not well-formed UTF-8.
pub open spec fn mode_text(mode: Seq<u8>) -> Option<Seq<char>> {
    if valid_utf8(mode) {
        Some(lowercase_of(decode_utf8(mode)))
    } else {
        None
    }
}

/// The mode a source names: in one of its first four lines, or for vim in
/// one of its last four.
pub open spec fn emacs_mode(buf: Seq<u8>) -> Option<Seq<char>> {
    match mode_choice(head_found(buf, 0, 4), tail_found(buf, buf.len() as int, 4)) {
        Some(m) => mode_text(m),
        None => None,
    }
}

/// Reads a mode as text.
fn mode_to_str(mode: &[u8]) -> (r: Option<String>)
    ensures
        r is Some <==> mode_text(mode@) is Some,
        r is Some ==> r->0@ == mode_text(mode@)->0,
{
    match str_from_utf8(mode) {
        Some(m) => {
            proof {
                vstd::utf8::encode_utf8_decode_utf8(m@);
            }
            Some(lowercase(m))
        },
        None => None,
    }
}

/// Runs the three searches on a line.
fn search_line(line: &[u8]) -> (r: LineSearch)
    ensures
        r@ == searched(line@),
{
    LineSearch {
        first: first_group(FIRST_EMACS_EXPRESSION, line),
        second: first_group(SECOND_EMACS_EXPRESSION, line),
        vim: first_group(VIM_EXPRESSION, line),
    }
}

/// Whether two optional texts are the same.
pub open spec fn same_text(a: Option<String>, b: Option<Seq<char>>) -> bool {
    (a is Some <==> b is Some) && (a is Some ==> a->0@ == b->0)
}

/// Finds the editor mode a source names.
pub fn get_emacs_mode(buf: &[u8]) -> (r: Option<String>)
    ensures
        same_text(r, emacs_mode(buf@)),
{
    // we just try to use the emacs info (if there)
    let n = buf.len();
    let mut head: Vec<LineSearch> = Vec::new();
    let mut start: usize = 0;
    let mut k: u8 = 4;
    assert(found_in(head@) + head_found(buf@, 0, 4) =~= head_found(buf@, 0, 4));
    while k > 0
        invariant
            n == buf@.len(),
            start <= n,
            k <= 4,
            found_in(head@) + head_found(buf@, start as int, k as nat) == head_found(buf@, 0, 4),
        decreases k,
    {
        let e = find_next(buf, start, 10);
        let ghost before = found_in(head@);
        let ghost rest = head_found(buf@, start as int, k as nat);
        head.push(search_line(slice_subrange(buf, start, e)));
        assert(found_in(head@) =~= before.push(searched(buf@.subrange(start as int, e as int))));
        if e >= n {
            assert(found_in(head@) + head_found(buf@, n as int, 0) =~= before + rest);
            k = 0;
            start = n;
        } else {
            assert(found_in(head@) + head_found(buf@, e + 1, (k - 1) as nat) =~= before + rest);
            start = e + 1;
            k -= 1;
        }
    }
    assert(found_in(head@) =~= head_found(buf@, 0, 4));
    let mut tail: Vec<Option<Vec<u8>>> = Vec::new();
    let mut end: usize = n;
    let mut k: u8 = 4;
    assert(vim_found_in(tail@) + tail_found(buf@, n as int, 4) =~= tail_found(buf@, n as int, 4));
    while k > 0
        invariant
            n == buf@.len(),
            end <= n,
            k <= 4,
            vim_found_in(tail@) + tail_found(buf@, end as int, k as nat) == tail_found(
                buf@,
                n as int,
                4,
            ),
        decreases k,
    {
        let s = find_after_last(buf, end, 10);
        let ghost before = vim_found_in(tail@);
        let ghost rest = tail_found(buf@, end as int, k as nat);
        tail.push(first_group(VIM_EXPRESSION, slice_subrange(buf, s, end)));
        assert(vim_found_in(tail@) =~= before.push(
            first_group_of(VIM_EXPRESSION@, buf@.subrange(s as int, end as int)),
        ));
        if s == 0 {
            assert(vim_found_in(tail@) + tail_found(buf@, 0, 0) =~= before + rest);
            k = 0;
            end = 0;
        } else {
            assert(vim_found_in(tail@) + tail_found(buf@, s - 1, (k - 1) as nat) =~= before
                + rest);
            end = s - 1;
            k -= 1;
        }
    }
    assert(vim_found_in(tail@) =~= tail_found(buf@, n as int, 4));
    match choose_mode(&head, &tail) {
        Some(mode) => mode_to_str(mode.as_slice()),
        None => None,
    }
}

/// The extension of a path, as `std::path::Path::extension` gives it;
/// `None` where the path has none or it is no text.
pub uninterp spec fn extension_of(path: Seq<char>) -> Option<Seq<char>>;

/// Takes the extension of a path with `std::path::Path::extension`. The
/// result is what `extension_of` names.
#[verifier::external_body]
fn path_extension(path: &str) -> (r: Option<String>)
    ensures
        same_text(r, extension_of(path@)),
{
    std::path::Path::new(path).extension().and_then(|e| e.to_str()).map(|e| e.to_owned())
}

/// The language a source is written in, given the language its extension
/// stands for and the one its editor mode stands for: the extension wins.
pub open spec fn language_choice(from_ext: Option<LANG>, from_mode: Option<LANG>) -> Option<LANG> {
    if from_ext is Some {
        from_ext
    } else {
        from_mode
    }
}

/// The name a chosen language is shown under; empty where there is none.
pub open spec fn chosen_name(lang: Option<LANG>) -> Seq<char> {
    match lang {
        Some(l) => lang_name(l),
        None => Seq::empty(),
    }
}

/// Picks the language of a source from the language its extension stands
/// for and the one its editor mode stands for.
pub fn choose_language(from_ext: Option<LANG>, from_mode: Option<LANG>) -> (r: (
    Option<LANG>,
    &'static str,
))
    ensures
        r.0 == language_choice(from_ext, from_mode),
        r.1@ == chosen_name(r.0),
{
    proof {
        lemma_empty_names_no_language();
    }
    match from_ext {
        Some(lang_ext) => match from_mode {
            Some(lang_mode) => {
                if lang_ext == lang_mode {
                    (Some(lang_mode), lang_mode.get_name())
                } else {
                    // we should probably rely on extension here
                    (Some(lang_ext), lang_ext.get_name())
                }
            },
            None => (Some(lang_ext), lang_ext.get_name()),
        },
        None => match from_mode {
            Some(lang_mode) => (Some(lang_mode), lang_mode.get_name()),
            None => (None, ""),
        },
    }
}

/// The language a source is written in: the one the extension of its path
/// stands for, in lower case, else the one its editor mode stands for.
pub open spec fn guessed_language(buf: Seq<u8>, path: Seq<char>) -> Option<LANG> {
    let from_ext = match extension_of(path) {
        Some(e) => lang_of_ext(lowercase_of(e)),
        None => lang_of_ext(Seq::empty()),
    };
    let from_mode = match emacs_mode(buf) {
        Some(m) => lang_of_mode(m),
        None => lang_of_mode(Seq::empty()),
    };
    language_choice(from_ext, from_mode)
}

/// No language goes by an empty extension or an empty mode.
pub proof fn lemma_empty_names_no_language()
    ensures
        lang_of_ext(Seq::<char>::empty()) is None,
        lang_of_mode(Seq::<char>::empty()) is None,
        ""@ == Seq::<char>::empty(),
{
    reveal_strlit("rs");
    reveal_strlit("py");
    reveal_strlit("tsx");
    reveal_strlit("ts");
    reveal_strlit("jsw");
    reveal_strlit("jsmw");
    reveal_strlit("go");
    reveal_strlit("rust");
    reveal_strlit("python");
    reveal_strlit("typescript");
    reveal_strlit("");
    assert("rs"@.len() == 2 && "py"@.len() == 2 && "tsx"@.len() == 3 && "ts"@.len() == 2);
    assert("jsw"@.len() == 3 && "jsmw"@.len() == 4 && "go"@.len() == 2);
    assert("rust"@.len() == 4 && "python"@.len() == 6 && "typescript"@.len() == 10);
    assert(""@ =~= Seq::<char>::empty());
}

/// Guesses the language of a code.
///
/// Returns a tuple containing a [`LANG`] as first argument
/// and the language name as a second one.
pub fn guess_language(buf: &[u8], path: &str) -> (r: (Option<LANG>, &'static str))
    ensures
        r.0 == guessed_language(buf@, path@),
        r.1@ == chosen_name(r.0),
{
    proof {
        lemma_empty_names_no_language();
    }
    let from_ext = match path_extension(path) {
        Some(ext) => get_from_ext(lowercase(ext.as_str()).as_str()),
        None => get_from_ext(""),
    };
    let from_mode = match get_emacs_mode(buf) {
        Some(mode) => get_from_emacs_mode(mode.as_str()),
        None => get_from_emacs_mode(""),
    };
    choose_language(from_ext, from_mode)
}

/// The length of the byte order mark a source starts with: two bytes for
/// UTF-16 in either order, three for UTF-8, none otherwise.
pub open spec fn bom_length(start: Seq<u8>) -> nat {
    if start.len() >= 2 && ((start[0] == 0xFE && start[1] == 0xFF) || (start[0] == 0xFF
        && start[1] == 0xFE)) {
        2
    } else if start.len() >= 3 && start[0] == 0xEF && start[1] == 0xBB && start[2] == 0xBF {
        3
    } else {
        0
    }
}

/// Removes the byte order mark a source starts with, if any.
pub fn skip_bom(start: &[u8]) -> (r: &[u8])
    ensures
        r@ == start@.subrange(bom_length(start@) as int, start@.len() as int),
{
    let n = start.len();
    if n >= 2 && ((start[0] == 0xFE && start[1] == 0xFF) || (start[0] == 0xFF && start[1]
        == 0xFE)) {
        slice_subrange(start, 2, n)
    } else if n >= 3 && start[0] == 0xEF && start[1] == 0xBB && start[2] == 0xBF {
        slice_subrange(start, 3, n)
    } else {
        assert(start@.subrange(0, n as int) =~= start@);
        start
    }
}

} // verus!
