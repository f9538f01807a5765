//! Text rules shared by the readers: file extensions, list splitting and
//! trimming, and the decoding of captured process output.
use vstd::prelude::*;

verus! {

/// The extension that marks a launch job description file.
pub open spec fn plist_suffix() -> Seq<char> {
    seq!['.', 'p', 'l', 'i', 's', 't']
}

/// A file name whose extension is `plist`: it ends in `.plist` and has a
/// non-empty stem (a bare `.plist` is a hidden file without extension).
pub open spec fn has_plist_extension(name: Seq<char>) -> bool {
    name.len() > plist_suffix().len() && name.subrange(
        name.len() - plist_suffix().len(),
        name.len() as int,
    ) == plist_suffix()
}

/// Whether the file name `name` has the extension `plist`.
pub fn is_plist_name(name: &str) -> (r: bool)
    ensures
        r == has_plist_extension(name@),
{
    let n = name.unicode_len();
    if n <= 6 {
        return false;
    }
    let r = name.get_char(n - 6) == '.' && name.get_char(n - 5) == 'p' && name.get_char(n - 4)
        == 'l' && name.get_char(n - 3) == 'i' && name.get_char(n - 2) == 's' && name.get_char(
        n - 1,
    ) == 't';
    assert(r == (name@.subrange(n - 6, n as int) =~= plist_suffix()));
    r
}

/// Characters with the Unicode `White_Space` property.
pub open spec fn is_white_space(c: char) -> bool {
    let n = c as u32;
    (0x9 <= n && n <= 0xd) || n == 0x20 || n == 0x85 || n == 0xa0 || n == 0x1680 || (0x2000 <= n
        && n <= 0x200a) || n == 0x2028 || n == 0x2029 || n == 0x202f || n == 0x205f || n == 0x3000
}

/// `s` without its leading white space.
pub open spec fn trim_start(s: Seq<char>) -> Seq<char>
    decreases s.len(),
{
    if s.len() > 0 && is_white_space(s[0]) {
        trim_start(s.drop_first())
    } else {
        s
    }
}

/// `s` without its trailing white space.
pub open spec fn trim_end(s: Seq<char>) -> Seq<char>
    decreases s.len(),
{
    if s.len() > 0 && is_white_space(s.last()) {
        trim_end(s.drop_last())
    } else {
        s
    }
}

/// `s` without leading and trailing white space.
pub open spec fn trimmed(s: Seq<char>) -> Seq<char> {
    trim_end(trim_start(s))
}

/// Relies on `str::trim`: it removes leading and trailing characters with
/// the Unicode `White_Space` property, and nothing else.
#[verifier::external_body]
fn trim_text(s: &str) -> (r: &str)
    ensures
        r@ == trimmed(s@),
{
    s.trim()
}

/// Whether `s` has the list separator `", "` at position `i`.
pub open spec fn separator_at(s: Seq<char>, i: int) -> bool {
    0 <= i && i + 1 < s.len() && s[i] == ',' && s[i + 1] == ' '
}

/// The pieces of `s` between the separators `", "`, in order; a text without
/// separator is one piece. The separator cannot overlap itself, so reading
/// the occurrences from the end gives the same pieces as reading from the
/// start.
pub open spec fn list_pieces(s: Seq<char>) -> Seq<Seq<char>>
    decreases s.len(),
{
    if s.len() == 0 {
        seq![Seq::empty()]
    } else if separator_at(s, s.len() - 2) {
        list_pieces(s.subrange(0, s.len() - 2)).push(Seq::empty())
    } else {
        let p = list_pieces(s.drop_last());
        p.update(p.len() - 1, p.last().push(s.last()))
    }
}

/// The trimmed pieces that are not empty, in order.
pub open spec fn kept_names(pieces: Seq<Seq<char>>) -> Seq<Seq<char>>
    decreases pieces.len(),
{
    if pieces.len() == 0 {
        Seq::empty()
    } else if trimmed(pieces.last()).len() > 0 {
        kept_names(pieces.drop_last()).push(trimmed(pieces.last()))
    } else {
        kept_names(pieces.drop_last())
    }
}

/// The names in a list written as `"a, b, c"`: the pieces between the
/// separators `", "`, trimmed, with the empty ones left out.
pub open spec fn list_names(s: Seq<char>) -> Seq<Seq<char>> {
    kept_names(list_pieces(s))
}

/// The views of a vector of strings.
pub open spec fn views(v: Seq<String>) -> Seq<Seq<char>> {
    v.map_values(|x: String| x@)
}

proof fn lemma_list_pieces_nonempty(s: Seq<char>)
    ensures
        list_pieces(s).len() >= 1,
    decreases s.len(),
{
    if s.len() == 0 {
    } else if separator_at(s, s.len() - 2) {
        lemma_list_pieces_nonempty(s.subrange(0, s.len() - 2));
    } else {
        lemma_list_pieces_nonempty(s.drop_last());
    }
}

/// The names in a list written as `"a, b, c"`, in order: the pieces between
/// the separators `", "`, trimmed, with the empty ones left out.
pub fn split_names(s: &str) -> (names: Vec<String>)
    ensures
        views(names@) == list_names(s@),
{
    let n = s.unicode_len();
    let mut names: Vec<String> = Vec::new();
    let ghost mut done: Seq<Seq<char>> = Seq::empty();
    let mut start: usize = 0;
    let mut i: usize = 0;
    proof {
        assert(s@.subrange(0, 0) =~= Seq::<char>::empty());
    }
    while i < n
        invariant
            n == s@.len(),
            start <= i <= n,
            done.push(s@.subrange(start as int, i as int)) == list_pieces(s@.subrange(0, i as int)),
            views(names@) == kept_names(done),
            0 < i < n && s@[i - 1] == ',' ==> s@[i as int] != ' ',
        decreases n - i,
    {
        let c = s.get_char(i);
        if c == ',' && i + 1 < n && s.get_char(i + 1) == ' ' {
            let piece = s.substring_char(start, i);
            let name = trim_text(piece);
            proof {
                let pre = s@.subrange(0, i + 2);
                assert(separator_at(pre, pre.len() - 2));
                assert(pre.subrange(0, pre.len() - 2) =~= s@.subrange(0, i as int));
                assert(done.push(piece@).push(Seq::empty()) == list_pieces(pre));
                assert(done.push(piece@).drop_last() =~= done);
                assert(s@.subrange(i + 2, i + 2) =~= Seq::<char>::empty());
            }
            if name.unicode_len() > 0 {
                names.push(name.to_string());
                proof {
                    assert(views(names@) =~= views(names@.drop_last()).push(name@));
                }
            }
            proof {
                done = done.push(piece@);
            }
            start = i + 2;
            i = i + 2;
        } else {
            proof {
                let pre = s@.subrange(0, i + 1);
                assert(!separator_at(pre, pre.len() - 2));
                assert(pre.drop_last() =~= s@.subrange(0, i as int));
                lemma_list_pieces_nonempty(s@.subrange(0, i as int));
                assert(s@.subrange(start as int, i + 1) =~= s@.subrange(start as int, i as int).push(c));
                assert(done.push(s@.subrange(start as int, i + 1)) =~= list_pieces(pre));
            }
            i = i + 1;
        }
    }
    let piece = s.substring_char(start, n);
    let name = trim_text(piece);
    proof {
        assert(s@.subrange(0, n as int) =~= s@);
        assert(done.push(piece@).drop_last() =~= done);
    }
    if name.unicode_len() > 0 {
        names.push(name.to_string());
        proof {
            assert(views(names@) =~= views(names@.drop_last()).push(name@));
        }
    }
    names
}

/// The view of an optional string.
pub open spec fn opt_view(o: Option<String>) -> Option<Seq<char>> {
    match o {
        Some(t) => Some(t@),
        None => None,
    }
}

/// What `String::from_utf8_lossy` makes of the bytes `b`.
pub uninterp spec fn utf8_lossy_text(b: Seq<u8>) -> Seq<char>;

/// Relies on `String::from_utf8_lossy`: the text depends on the bytes alone,
/// and no bytes give no text.
#[verifier::external_body]
pub(crate) fn lossy_text(b: &Vec<u8>) -> (r: String)
    ensures
        r@ == utf8_lossy_text(b@),
        b@.len() == 0 ==> r@.len() == 0,
{
    String::from_utf8_lossy(b).into_owned()
}

/// The longest output that is decoded in the console's legacy encoding; the
/// decoder's buffer size computation would overflow far above it.
pub const CONSOLE_TEXT_MAX: usize = 0x1000_0000;

/// What `encoding_rs::GBK.decode` makes of the bytes `b`.
pub uninterp spec fn gbk_text(b: Seq<u8>) -> Seq<char>;

/// Relies on `encoding_rs::Encoding::decode` for GBK, the console encoding of
/// the command line tools: the text depends on the bytes alone, and no bytes
/// give no text. It panics only where its buffer size overflows `usize`,
/// which the bound on the length rules out.
#[verifier::external_body]
fn gbk_decode(b: &Vec<u8>) -> (r: String)
    requires
        b@.len() <= CONSOLE_TEXT_MAX,
    ensures
        r@ == gbk_text(b@),
        b@.len() == 0 ==> r@.len() == 0,
{
    encoding_rs::GBK.decode(b).0.into_owned()
}

/// The text of console output: decoded as GBK where it is not longer than
/// `CONSOLE_TEXT_MAX`, else empty.
pub open spec fn console_text_of(b: Seq<u8>) -> Seq<char> {
    if b.len() <= CONSOLE_TEXT_MAX {
        gbk_text(b)
    } else {
        Seq::empty()
    }
}

/// Decodes output of a console tool, which may be in the legacy encoding
/// rather than UTF-8.
pub fn console_text(b: &Vec<u8>) -> (r: String)
    ensures
        r@ == console_text_of(b@),
{
    if b.len() <= CONSOLE_TEXT_MAX {
        gbk_decode(b)
    } else {
        String::new()
    }
}

} // verus!
