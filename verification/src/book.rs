//! Book and quill editing: pages, the signing title, and the NBT payload
//! sent to the server.
use vstd::prelude::*;
use vstd::utf8::{decode_utf8, valid_utf8, encode_utf8};
use crate::nbt::{
    compound_end, compound_lookup, i32_at, list_end, name_author, name_pages, name_title, payload_end,
    root_list, root_lookup, root_payload, root_valid, string_end, string_end_exec, u16_at, MAX_NBT_DEPTH,
};
use crate::text::{is_control, spec_is_control, spec_trim};

verus! {

/// Most pages a book holds.
pub const MAX_BOOK_PAGES: usize = 50;
/// Most characters a page holds.
pub const MAX_BOOK_PAGE_CHARS: usize = 256;
/// Most characters a title holds.
pub const MAX_BOOK_TITLE_CHARS: usize = 16;

/// The characters of a list of strings.
pub open spec fn strings_view(v: Seq<String>) -> Seq<Seq<char>> {
    v.map_values(|s: String| s@)
}

/// The first 50 entries of `s`.
pub open spec fn cap_pages(s: Seq<Seq<char>>) -> Seq<Seq<char>> {
    if s.len() > MAX_BOOK_PAGES {
        s.take(MAX_BOOK_PAGES as int)
    } else {
        s
    }
}

/// The UTF-8 strings among `n` string payloads starting at `pos` (strings
/// that are not valid UTF-8 are skipped).
pub open spec fn strings_in(b: Seq<u8>, pos: int, n: int) -> Seq<Seq<char>>
    decreases n,
{
    if n <= 0 {
        Seq::empty()
    } else {
        match string_end(b, pos) {
            Some(e) => {
                let bytes = b.subrange(pos + 2, e);
                let rest = strings_in(b, e, n - 1);
                if valid_utf8(bytes) {
                    seq![decode_utf8(bytes)] + rest
                } else {
                    rest
                }
            },
            None => Seq::empty(),
        }
    }
}

/// The pages stored in book NBT `b`: the UTF-8 strings of its `pages`
/// string list, at most 50.
pub open spec fn spec_book_pages(b: Seq<u8>) -> Seq<Seq<char>> {
    if !root_valid(b) {
        Seq::empty()
    } else {
        match root_list(b, name_pages()) {
            Some(l) => if l.0 == 8 {
                cap_pages(strings_in(b, l.2, l.1))
            } else {
                Seq::empty()
            },
            None => Seq::empty(),
        }
    }
}

/// The pages a book editor opens with: those of the NBT, or one empty page.
pub open spec fn spec_pages_from_nbt(nbt: Option<Seq<u8>>) -> Seq<Seq<char>> {
    let p = match nbt {
        Some(b) => spec_book_pages(b),
        None => Seq::empty(),
    };
    if p.len() == 0 {
        seq![Seq::<char>::empty()]
    } else {
        p
    }
}

/// `String::from_utf8`: the string of `bytes` when they are valid UTF-8.
#[verifier::external_body]
fn string_from_utf8(bytes: Vec<u8>) -> (r: Option<String>)
    ensures
        r is Some <==> valid_utf8(bytes@),
        r matches Some(s) ==> s@ == decode_utf8(bytes@),
{
    match String::from_utf8(bytes) {
        Ok(s) => Some(s),
        Err(_) => None,
    }
}

/// Characters a page accepts: everything but control characters, except
/// line breaks.
pub open spec fn page_char_allowed(c: char) -> bool {
    !(c != '\n' && c != '\r' && spec_is_control(c))
}

/// The characters of `s` a page accepts.
pub open spec fn page_chars(s: Seq<char>) -> Seq<char>
    decreases s.len(),
{
    if s.len() == 0 {
        Seq::empty()
    } else {
        page_chars(s.drop_last()) + if page_char_allowed(s.last()) {
            seq![s.last()]
        } else {
            Seq::empty()
        }
    }
}

/// The characters of `s` a title accepts (no control characters).
pub open spec fn title_chars(s: Seq<char>) -> Seq<char>
    decreases s.len(),
{
    if s.len() == 0 {
        Seq::empty()
    } else {
        title_chars(s.drop_last()) + if !spec_is_control(s.last()) {
            seq![s.last()]
        } else {
            Seq::empty()
        }
    }
}

/// Room left in a text of `len` characters limited to `limit`.
pub open spec fn room(len: int, limit: int) -> int {
    if len < limit {
        limit - len
    } else {
        0
    }
}

/// The first `n` elements of `s` (all of them when `n` is larger).
pub open spec fn prefix<A>(s: Seq<A>, n: int) -> Seq<A> {
    if n < s.len() {
        s.take(n)
    } else {
        s
    }
}

/// The abstract state of a book editor.
#[verifier::ext_equal]
pub struct BookModel {
    pub slot: usize,
    pub pages: Seq<Seq<char>>,
    pub page: usize,
    pub signing: bool,
    pub title: Seq<char>,
    pub modified: bool,
}

/// An open book and quill.
#[derive(Clone, Debug)]
pub struct BookEditor {
    pub slot: usize,
    pub pages: Vec<String>,
    pub page: usize,
    pub signing: bool,
    pub title: String,
    pub modified: bool,
}

impl View for BookEditor {
    type V = BookModel;

    open spec fn view(&self) -> BookModel {
        BookModel {
            slot: self.slot,
            pages: strings_view(self.pages@),
            page: self.page,
            signing: self.signing,
            title: self.title@,
            modified: self.modified,
        }
    }
}

impl BookModel {
    /// The page being edited exists.
    pub open spec fn wf(self) -> bool {
        self.page < self.pages.len()
    }
}


/// The bytes `b[start..end]` as a vector.
fn copy_range(b: &[u8], start: usize, end: usize) -> (r: Vec<u8>)
    requires
        start <= end <= b@.len(),
    ensures
        r@ == b@.subrange(start as int, end as int),
{
    let mut r: Vec<u8> = Vec::new();
    let mut i = start;
    while i < end
        invariant
            start <= i <= end,
            end <= b@.len(),
            r@ == b@.subrange(start as int, i as int),
        decreases end - i,
    {
        r.push(b[i]);
        i = i + 1;
        assert(r@ =~= b@.subrange(start as int, i as int));
    }
    r
}

/// The pages stored in book NBT.
fn book_pages(b: &[u8]) -> (r: Vec<String>)
    ensures
        strings_view(r@) == spec_book_pages(b@),
{
    if !crate::nbt::root_valid_exec(b) {
        let r: Vec<String> = Vec::new();
        assert(strings_view(r@) =~= Seq::empty());
        return r;
    }
    let pages_name: [u8; 5] = [112, 97, 103, 101, 115];
    assert(pages_name@ =~= name_pages());
    let (et, n, start) = match crate::nbt::root_list_exec(b, pages_name.as_slice()) {
        Some(l) => l,
        None => {
            let r: Vec<String> = Vec::new();
            assert(strings_view(r@) =~= Seq::empty());
            return r;
        },
    };
    if et != 8 {
        let r: Vec<String> = Vec::new();
        assert(strings_view(r@) =~= Seq::empty());
        return r;
    }
    let mut out: Vec<String> = Vec::new();
    let mut k: i64 = n;
    let mut p: usize = start;
    assert(strings_view(out@) + strings_in(b@, p as int, k as int) =~= strings_in(b@, start as int, n as int));
    while k > 0
        invariant
            out@.len() <= MAX_BOOK_PAGES,
            p <= b@.len(),
            cap_pages(strings_view(out@) + strings_in(b@, p as int, k as int)) == cap_pages(
                strings_in(b@, start as int, n as int),
            ),
            spec_book_pages(b@) == cap_pages(strings_in(b@, start as int, n as int)),
        decreases k,
    {
        let e = match string_end_exec(b, p) {
            Some(e) => e,
            None => {
                assert(strings_view(out@) + strings_in(b@, p as int, k as int) =~= strings_view(out@));
                assert(cap_pages(strings_view(out@)) =~= strings_view(out@));
                return out;
            },
        };
        let bytes = copy_range(b, p + 2, e);
        let ghost rest = strings_in(b@, e as int, k - 1);
        let ghost before = strings_view(out@);
        match string_from_utf8(bytes) {
            Some(page) => {
                if out.len() < MAX_BOOK_PAGES {
                    out.push(page);
                    assert(strings_view(out@) =~= before.push(page@));
                    assert(strings_view(out@) + rest =~= before + (seq![page@] + rest));
                } else {
                    assert(cap_pages(before + (seq![page@] + rest)) =~= before);
                    assert(cap_pages(before + rest) =~= before);
                }
            },
            None => {},
        }
        p = e;
        k = k - 1;
    }
    assert(strings_view(out@) + strings_in(b@, p as int, k as int) =~= strings_view(out@));
    assert(cap_pages(strings_view(out@)) =~= strings_view(out@));
    out
}

impl BookEditor {
    /// Opens the book in hotbar slot `slot` with the pages of its NBT, or
    /// a single empty page.
    pub fn from_nbt(slot: usize, nbt: Option<&[u8]>) -> (r: BookEditor)
        ensures
            r@ == (BookModel {
                slot,
                pages: spec_pages_from_nbt(
                    match nbt {
                        Some(b) => Some(b@),
                        None => None,
                    },
                ),
                page: 0,
                signing: false,
                title: Seq::empty(),
                modified: false,
            }),
            r@.wf(),
    {
        let mut pages = match nbt {
            Some(bytes) => book_pages(bytes),
            None => {
                let r: Vec<String> = Vec::new();
                assert(strings_view(r@) =~= Seq::empty());
                r
            },
        };
        if pages.len() == 0 {
            pages.push(String::new());
            assert(strings_view(pages@) =~= seq![Seq::<char>::empty()]);
        }
        BookEditor { slot, pages, page: 0, signing: false, title: String::new(), modified: false }
    }
}


/// `page` with the accepted characters of `text` appended, up to `limit`.
pub open spec fn append_limited(page: Seq<char>, accepted: Seq<char>, limit: int) -> Seq<char> {
    page + prefix(accepted, room(page.len() as int, limit))
}

/// Replacing one string changes only that entry of the views.
proof fn lemma_strings_update(v: Seq<String>, i: int, s: String)
    requires
        0 <= i < v.len(),
    ensures
        strings_view(v.update(i, s)) == strings_view(v).update(i, s@),
{
    assert(strings_view(v.update(i, s)) =~= strings_view(v).update(i, s@));
}

/// Appending a string appends its characters to the views.
proof fn lemma_strings_push(v: Seq<String>, s: String)
    ensures
        strings_view(v.push(s)) == strings_view(v).push(s@),
{
    assert(strings_view(v.push(s)) =~= strings_view(v).push(s@));
}

impl BookEditor {
    /// The page being edited, or "" when the page index is out of range.
    pub fn current_page(&self) -> (r: &str)
        ensures
            r@ == if self.page < self@.pages.len() {
                self@.pages[self.page as int]
            } else {
                Seq::<char>::empty()
            },
    {
        if self.page < self.pages.len() {
            self.pages[self.page].as_str()
        } else {
            proof {
                reveal_strlit("");
            }
            ""
        }
    }

    /// Types `text` into the current page: control characters other than
    /// line breaks are dropped and the page stops at 256 characters.
    pub fn insert_text(&mut self, text: &str)
        requires
            old(self)@.wf(),
        ensures
            final(self)@.wf(),
            ({
                let added = prefix(
                    page_chars(text@),
                    room(old(self)@.pages[old(self).page as int].len() as int, MAX_BOOK_PAGE_CHARS as int),
                );
                final(self)@ == (BookModel {
                    pages: old(self)@.pages.update(
                        old(self).page as int,
                        old(self)@.pages[old(self).page as int] + added,
                    ),
                    modified: old(self).modified || added.len() > 0,
                    ..old(self)@
                })
            }),
    {
        let idx = self.page;
        let mut page = self.pages[idx].clone();
        let ghost page0 = page@;
        let n = text.unicode_len();
        let mut count = page.unicode_len();
        let ghost r = room(page0.len() as int, MAX_BOOK_PAGE_CHARS as int);
        let mut i: usize = 0;
        let mut changed = false;
        while i < n
            invariant
                n == text@.len(),
                i <= n,
                count == page@.len(),
                page@ == page0 + prefix(page_chars(text@.take(i as int)), r),
                r == room(page0.len() as int, MAX_BOOK_PAGE_CHARS as int),
                changed == (prefix(page_chars(text@.take(i as int)), r).len() > 0),
            decreases n - i,
        {
            let ch = text.get_char(i);
            let ghost acc = page_chars(text@.take(i as int));
            assert(text@.take(i + 1).drop_last() =~= text@.take(i as int));
            if ch == '\n' || ch == '\r' || !is_control(ch) {
                assert(page_chars(text@.take(i + 1)) == acc.push(ch));
                if count < MAX_BOOK_PAGE_CHARS {
                    crate::text::string_push(&mut page, ch);
                    count = count + 1;
                    changed = true;
                    assert(prefix(acc.push(ch), r) =~= prefix(acc, r).push(ch));
                } else {
                    assert(prefix(acc.push(ch), r) =~= prefix(acc, r));
                }
            } else {
                assert(page_chars(text@.take(i + 1)) =~= acc);
            }
            i = i + 1;
        }
        assert(text@.take(n as int) =~= text@);
        let ghost v0 = self.pages@;
        self.pages.set(idx, page);
        proof {
            lemma_strings_update(v0, idx as int, page);
        }
        self.modified = self.modified || changed;
        assert(self@ =~= (BookModel {
            pages: old(self)@.pages.update(idx as int, page0 + prefix(page_chars(text@), r)),
            modified: old(self).modified || prefix(page_chars(text@), r).len() > 0,
            ..old(self)@
        }));
    }
}


impl BookEditor {
    /// Deletes the last character of the current page.
    pub fn backspace(&mut self)
        requires
            old(self)@.wf(),
        ensures
            final(self)@.wf(),
            ({
                let pg = old(self)@.pages[old(self).page as int];
                final(self)@ == if pg.len() > 0 {
                    BookModel {
                        pages: old(self)@.pages.update(old(self).page as int, pg.drop_last()),
                        modified: true,
                        ..old(self)@
                    }
                } else {
                    old(self)@
                }
            }),
    {
        let idx = self.page;
        let mut page = self.pages[idx].clone();
        let popped = crate::text::string_pop(&mut page);
        if popped.is_some() {
            let ghost v0 = self.pages@;
            self.pages.set(idx, page);
            proof {
                lemma_strings_update(v0, idx as int, page);
            }
            self.modified = true;
        }
    }

    /// Turns to the next page, adding an empty page at the end of the book
    /// while it has fewer than 50 pages.
    pub fn next_page(&mut self)
        requires
            old(self).page < usize::MAX,
        ensures
            old(self)@.wf() ==> final(self)@.wf(),
            final(self)@ == if old(self).page + 1 < old(self)@.pages.len() {
                BookModel { page: (old(self).page + 1) as usize, ..old(self)@ }
            } else if old(self)@.pages.len() < MAX_BOOK_PAGES {
                BookModel {
                    pages: old(self)@.pages.push(Seq::empty()),
                    page: (old(self).page + 1) as usize,
                    modified: true,
                    ..old(self)@
                }
            } else {
                old(self)@
            },
    {
        let n = self.pages.len();
        if self.page + 1 < n {
            self.page = self.page + 1;
        } else if n < MAX_BOOK_PAGES {
            let ghost v0 = self.pages@;
            let empty = String::new();
            self.pages.push(empty);
            proof {
                lemma_strings_push(v0, empty);
            }
            self.page = self.page + 1;
            self.modified = true;
        }
    }

    /// Turns back one page (stays on the first page).
    pub fn previous_page(&mut self)
        ensures
            final(self)@ == (BookModel {
                page: if old(self).page > 0 { (old(self).page - 1) as usize } else { 0 },
                ..old(self)@
            }),
    {
        self.page = if self.page > 0 { self.page - 1 } else { 0 };
    }

    /// Types `text` into the title: control characters are dropped and the
    /// title stops at 16 characters.
    pub fn insert_title(&mut self, text: &str)
        ensures
            ({
                let added = prefix(title_chars(text@), room(old(self)@.title.len() as int, MAX_BOOK_TITLE_CHARS as int));
                final(self)@ == (BookModel {
                    title: old(self)@.title + added,
                    modified: old(self).modified || added.len() > 0,
                    ..old(self)@
                })
            }),
    {
        let ghost title0 = self.title@;
        let ghost r = room(title0.len() as int, MAX_BOOK_TITLE_CHARS as int);
        let n = text.unicode_len();
        let mut count = self.title.unicode_len();
        let mut i: usize = 0;
        let ghost modified0 = self.modified;
        while i < n
            invariant
                n == text@.len(),
                i <= n,
                count == self.title@.len(),
                self.title@ == title0 + prefix(title_chars(text@.take(i as int)), r),
                r == room(title0.len() as int, MAX_BOOK_TITLE_CHARS as int),
                self.modified == (modified0 || prefix(title_chars(text@.take(i as int)), r).len() > 0),
                self.slot == old(self).slot,
                self.pages == old(self).pages,
                self.page == old(self).page,
                self.signing == old(self).signing,
                title0 == old(self).title@,
                modified0 == old(self).modified,
            decreases n - i,
        {
            let ch = text.get_char(i);
            let ghost acc = title_chars(text@.take(i as int));
            assert(text@.take(i + 1).drop_last() =~= text@.take(i as int));
            if !is_control(ch) {
                assert(title_chars(text@.take(i + 1)) == acc.push(ch));
                if count < MAX_BOOK_TITLE_CHARS {
                    crate::text::string_push(&mut self.title, ch);
                    count = count + 1;
                    self.modified = true;
                    assert(prefix(acc.push(ch), r) =~= prefix(acc, r).push(ch));
                } else {
                    assert(prefix(acc.push(ch), r) =~= prefix(acc, r));
                }
            } else {
                assert(title_chars(text@.take(i + 1)) =~= acc);
            }
            i = i + 1;
        }
        assert(text@.take(n as int) =~= text@);
    }

    /// Deletes the last character of the title.
    pub fn backspace_title(&mut self)
        ensures
            final(self)@ == if old(self)@.title.len() > 0 {
                BookModel { title: old(self)@.title.drop_last(), modified: true, ..old(self)@ }
            } else {
                old(self)@
            },
    {
        if crate::text::string_pop(&mut self.title).is_some() {
            self.modified = true;
        }
    }

    /// A book can be signed once its title has a non-blank character.
    pub fn can_sign(&self) -> (r: bool)
        ensures
            r == (spec_trim(self@.title).len() > 0),
    {
        let t = crate::text::trim(self.title.as_str());
        t.unicode_len() > 0
    }
}


/// An NBT string: u16 big-endian length, then at most 65535 bytes.
pub open spec fn nbt_string_bytes(s: Seq<u8>) -> Seq<u8> {
    let n = if s.len() < 65535 { s.len() as int } else { 65535 };
    seq![(n / 256) as u8, (n % 256) as u8] + s.take(n)
}

/// The string payloads of `pages`, in order.
pub open spec fn pages_bytes(pages: Seq<Seq<char>>) -> Seq<u8>
    decreases pages.len(),
{
    if pages.len() == 0 {
        Seq::empty()
    } else {
        nbt_string_bytes(encode_utf8(pages[0])) + pages_bytes(pages.drop_first())
    }
}

/// A list length as written: the low 32 bits, big-endian.
pub open spec fn count_bytes(n: nat) -> Seq<u8> {
    let u = n % 0x1_0000_0000;
    seq![(u / 16777216) as u8, ((u / 65536) % 256) as u8, ((u / 256) % 256) as u8, (u % 256) as u8]
}

/// A named string tag.
pub open spec fn named_string_bytes(name: Seq<u8>, value: Seq<char>) -> Seq<u8> {
    seq![8u8] + nbt_string_bytes(name) + nbt_string_bytes(encode_utf8(value))
}

/// A named string tag when there is a value, nothing otherwise.
pub open spec fn optional_string_tag(name: Seq<u8>, value: Option<Seq<char>>) -> Seq<u8> {
    match value {
        Some(v) => named_string_bytes(name, v),
        None => Seq::empty(),
    }
}

/// The book NBT: a root compound with a `pages` string list and, when
/// given, `title` and `author` strings.
pub open spec fn spec_encode_book(pages: Seq<Seq<char>>, title: Option<Seq<char>>, author: Option<Seq<char>>) -> Seq<u8> {
    seq![10u8] + nbt_string_bytes(Seq::empty()) + seq![9u8] + nbt_string_bytes(name_pages()) + seq![8u8]
        + count_bytes(pages.len()) + pages_bytes(pages) + optional_string_tag(name_title(), title)
        + optional_string_tag(name_author(), author) + seq![0u8]
}

proof fn lemma_pages_bytes_push(pages: Seq<Seq<char>>, p: Seq<char>)
    ensures
        pages_bytes(pages.push(p)) == pages_bytes(pages) + nbt_string_bytes(encode_utf8(p)),
    decreases pages.len(),
{
    if pages.len() == 0 {
        assert(pages.push(p).drop_first() =~= Seq::<Seq<char>>::empty());
        assert(pages.push(p)[0] == p);
        assert(pages_bytes(Seq::<Seq<char>>::empty()) == Seq::<u8>::empty());
        assert(pages_bytes(pages) == Seq::<u8>::empty());
        assert(pages_bytes(pages.push(p)) =~= nbt_string_bytes(encode_utf8(p)));
    } else {
        lemma_pages_bytes_push(pages.drop_first(), p);
        assert(pages.push(p).drop_first() =~= pages.drop_first().push(p));
        assert(pages.push(p)[0] == pages[0]);
        assert(pages_bytes(pages.push(p)) =~= pages_bytes(pages) + nbt_string_bytes(encode_utf8(p)));
    }
}

fn write_nbt_bytes(bytes: &mut Vec<u8>, value: &[u8])
    ensures
        final(bytes)@ == old(bytes)@ + nbt_string_bytes(value@),
{
    let length: usize = if value.len() < 65535 { value.len() } else { 65535 };
    bytes.push((length / 256) as u8);
    bytes.push((length % 256) as u8);
    let ghost start = bytes@;
    let mut i: usize = 0;
    while i < length
        invariant
            i <= length,
            length <= value@.len(),
            bytes@ == start + value@.take(i as int),
        decreases length - i,
    {
        bytes.push(value[i]);
        i = i + 1;
        assert(bytes@ =~= start + value@.take(i as int));
    }
    assert(bytes@ =~= old(bytes)@ + nbt_string_bytes(value@));
}

fn write_nbt_string(bytes: &mut Vec<u8>, value: &str)
    ensures
        final(bytes)@ == old(bytes)@ + nbt_string_bytes(encode_utf8(value@)),
{
    write_nbt_bytes(bytes, value.as_bytes());
}

fn write_named_string(bytes: &mut Vec<u8>, name: &[u8], value: &str)
    ensures
        final(bytes)@ == old(bytes)@ + named_string_bytes(name@, value@),
{
    bytes.push(8);
    write_nbt_bytes(bytes, name);
    write_nbt_string(bytes, value);
    assert(bytes@ =~= old(bytes)@ + named_string_bytes(name@, value@));
}

/// Encodes book pages, and for a signed book its title and author, as NBT.
pub fn encode_book_nbt(pages: &[String], title: Option<&str>, author: Option<&str>) -> (r: Vec<u8>)
    ensures
        r@ == spec_encode_book(
            strings_view(pages@),
            match title {
                Some(t) => Some(t@),
                None => None,
            },
            match author {
                Some(a) => Some(a@),
                None => None,
            },
        ),
{
    let mut bytes: Vec<u8> = Vec::new();
    bytes.push(10);
    let empty: [u8; 0] = [];
    assert(empty@ =~= Seq::<u8>::empty());
    write_nbt_bytes(&mut bytes, empty.as_slice());
    bytes.push(9);
    let pages_name: [u8; 5] = [112, 97, 103, 101, 115];
    assert(pages_name@ =~= name_pages());
    write_nbt_bytes(&mut bytes, pages_name.as_slice());
    bytes.push(8);
    let count = (pages.len() as u64) % 0x1_0000_0000;
    bytes.push((count / 16777216) as u8);
    bytes.push(((count / 65536) % 256) as u8);
    bytes.push(((count / 256) % 256) as u8);
    bytes.push((count % 256) as u8);
    let ghost head = bytes@;
    assert(head =~= seq![10u8] + nbt_string_bytes(Seq::empty()) + seq![9u8] + nbt_string_bytes(name_pages()) + seq![8u8]
        + count_bytes(pages@.len()));
    let mut i: usize = 0;
    while i < pages.len()
        invariant
            i <= pages@.len(),
            bytes@ == head + pages_bytes(strings_view(pages@).take(i as int)),
        decreases pages.len() - i,
    {
        write_nbt_string(&mut bytes, pages[i].as_str());
        proof {
            lemma_pages_bytes_push(strings_view(pages@).take(i as int), pages@[i as int]@);
            assert(strings_view(pages@).take(i + 1) =~= strings_view(pages@).take(i as int).push(pages@[i as int]@));
        }
        i = i + 1;
    }
    assert(strings_view(pages@).take(pages@.len() as int) =~= strings_view(pages@));
    let title_name: [u8; 5] = [116, 105, 116, 108, 101];
    let author_name: [u8; 6] = [97, 117, 116, 104, 111, 114];
    assert(title_name@ =~= name_title());
    assert(author_name@ =~= name_author());
    let ghost mid = bytes@;
    if let Some(t) = title {
        write_named_string(&mut bytes, title_name.as_slice(), t);
    }
    let ghost mid2 = bytes@;
    if let Some(a) = author {
        write_named_string(&mut bytes, author_name.as_slice(), a);
    }
    bytes.push(0);
    assert(bytes@ =~= spec_encode_book(
        strings_view(pages@),
        match title {
            Some(t) => Some(t@),
            None => None,
        },
        match author {
            Some(a) => Some(a@),
            None => None,
        },
    ));
    bytes
}


/// The lower-case hexadecimal digit of `n` (`0 <= n < 16`).
pub open spec fn hex_digit(n: int) -> char {
    seq!['0', '1', '2', '3', '4', '5', '6', '7', '8', '9', 'a', 'b', 'c', 'd', 'e', 'f'][n]
}

/// How one character stands inside a JSON string literal as
/// `serde_json` writes it: the quote and the backslash are escaped with a
/// backslash, backspace, tab, line feed, form feed and carriage return by
/// their short escapes, the other control characters below U+0020 as
/// `\u00XX` with lower-case hex digits, and every other character as it is.
pub open spec fn json_escape_char(c: char) -> Seq<char> {
    if c == '"' {
        seq!['\\', '"']
    } else if c == '\\' {
        seq!['\\', '\\']
    } else if c == '\u{8}' {
        seq!['\\', 'b']
    } else if c == '\t' {
        seq!['\\', 't']
    } else if c == '\n' {
        seq!['\\', 'n']
    } else if c == '\u{c}' {
        seq!['\\', 'f']
    } else if c == '\r' {
        seq!['\\', 'r']
    } else if (c as int) < 0x20 {
        seq!['\\', 'u', '0', '0', hex_digit((c as int) / 16), hex_digit((c as int) % 16)]
    } else {
        seq![c]
    }
}

/// The characters of `s`, each escaped by `json_escape_char`.
pub open spec fn json_escaped(s: Seq<char>) -> Seq<char>
    decreases s.len(),
{
    if s.len() == 0 {
        Seq::empty()
    } else {
        json_escaped(s.drop_last()) + json_escape_char(s.last())
    }
}

/// What `serde_json::to_string` writes for a string: the escaped
/// characters between double quotes.
pub open spec fn json_string_literal(s: Seq<char>) -> Seq<char> {
    seq!['"'] + json_escaped(s) + seq!['"']
}

/// `serde_json::to_string` on a `&str`: the JSON string literal of `s`,
/// escaped as `json_escape_char` says. Serialising a string into memory
/// cannot fail, so the error arm is never taken.
#[verifier::external_body]
fn json_quote(s: &str) -> (r: String)
    ensures
        r@ == json_string_literal(s@),
{
    match serde_json::to_string(s) {
        Ok(q) => q,
        Err(_) => String::new(),
    }
}

/// The JSON text component `{"text":<literal>}` around a string literal.
pub open spec fn text_component(literal: Seq<char>) -> Seq<char> {
    seq!['{', '"', 't', 'e', 'x', 't', '"', ':'] + literal + seq!['}']
}

/// Appends the characters of `t` to `s`.
fn push_str(s: &mut String, t: &str)
    ensures
        final(s)@ == old(s)@ + t@,
{
    let n = t.unicode_len();
    let mut i: usize = 0;
    while i < n
        invariant
            n == t@.len(),
            i <= n,
            s@ == old(s)@ + t@.take(i as int),
        decreases n - i,
    {
        crate::text::string_push(s, t.get_char(i));
        i = i + 1;
        assert(s@ =~= old(s)@ + t@.take(i as int));
    }
    assert(t@.take(n as int) =~= t@);
}

/// The text component `{"text":<literal>}` of a page already quoted as a
/// JSON string literal.
pub fn text_component_of(literal: &str) -> (r: String)
    ensures
        r@ == text_component(literal@),
{
    let mut s = String::new();
    crate::text::string_push(&mut s, '{');
    crate::text::string_push(&mut s, '"');
    crate::text::string_push(&mut s, 't');
    crate::text::string_push(&mut s, 'e');
    crate::text::string_push(&mut s, 'x');
    crate::text::string_push(&mut s, 't');
    crate::text::string_push(&mut s, '"');
    crate::text::string_push(&mut s, ':');
    push_str(&mut s, literal);
    crate::text::string_push(&mut s, '}');
    assert(s@ =~= text_component(literal@));
    s
}

/// `pages` without its trailing empty pages, keeping at least one page.
pub open spec fn drop_trailing_empty(pages: Seq<Seq<char>>) -> Seq<Seq<char>>
    decreases pages.len(),
{
    if pages.len() > 1 && pages.last().len() == 0 {
        drop_trailing_empty(pages.drop_last())
    } else {
        pages
    }
}

/// The pages as sent for a signed book: each page as a JSON text
/// component.
pub open spec fn signed_pages(pages: Seq<Seq<char>>) -> Seq<Seq<char>> {
    pages.map_values(|p: Seq<char>| text_component(json_string_literal(p)))
}

/// The NBT a book editor sends: its pages without trailing empty ones;
/// when signed, pages as JSON text components and the trimmed title and
/// the author.
pub open spec fn spec_nbt_payload(book: BookModel, signed: bool, author: Seq<char>) -> Seq<u8> {
    let pages = drop_trailing_empty(book.pages);
    if signed {
        spec_encode_book(signed_pages(pages), Some(spec_trim(book.title)), Some(author))
    } else {
        spec_encode_book(pages, None, None)
    }
}

impl BookEditor {
    /// The NBT payload for the edited book, as sent when saving or signing.
    pub fn nbt_payload(&self, signed: bool, author: &str) -> (r: Vec<u8>)
        ensures
            r@ == spec_nbt_payload(self@, signed, author@),
    {
        let mut pages = self.pages.clone();
        assert(pages@ =~= self.pages@) by {
            assert forall|i: int| 0 <= i < pages@.len() implies pages@[i] == self.pages@[i] by {
                assert(vstd::pervasive::cloned::<String>(self.pages@[i], pages@[i]));
            }
        }
        while pages.len() > 1 && pages[pages.len() - 1].unicode_len() == 0
            invariant
                drop_trailing_empty(strings_view(pages@)) == drop_trailing_empty(strings_view(self.pages@)),
            decreases pages.len(),
        {
            let ghost before = pages@;
            pages.pop();
            assert(strings_view(pages@) =~= strings_view(before).drop_last());
        }
        assert(drop_trailing_empty(strings_view(pages@)) == strings_view(pages@));
        if signed {
            let mut out: Vec<String> = Vec::new();
            let mut i: usize = 0;
            while i < pages.len()
                invariant
                    i <= pages@.len(),
                    strings_view(out@) == signed_pages(strings_view(pages@)).take(i as int),
                decreases pages.len() - i,
            {
                let q = json_quote(pages[i].as_str());
                let c = text_component_of(q.as_str());
                let ghost before = out@;
                out.push(c);
                proof {
                    lemma_strings_push(before, c);
                    assert(signed_pages(strings_view(pages@)).take(i + 1) =~= signed_pages(
                        strings_view(pages@),
                    ).take(i as int).push(c@));
                }
                i = i + 1;
            }
            assert(signed_pages(strings_view(pages@)).take(pages@.len() as int) =~= signed_pages(
                strings_view(pages@),
            ));
            let title = crate::text::trim(self.title.as_str());
            encode_book_nbt(out.as_slice(), Some(title.as_str()), Some(author))
        } else {
            encode_book_nbt(pages.as_slice(), None, None)
        }
    }
}


/// Dropping trailing empty pages keeps a nonempty prefix of the pages.
proof fn lemma_drop_trailing_empty_prefix(pages: Seq<Seq<char>>)
    requires
        pages.len() >= 1,
    ensures
        1 <= drop_trailing_empty(pages).len() <= pages.len(),
        forall|i: int|
            0 <= i < drop_trailing_empty(pages).len() ==> #[trigger] drop_trailing_empty(pages)[i]
                == pages[i],
    decreases pages.len(),
{
    if pages.len() > 1 && pages.last().len() == 0 {
        lemma_drop_trailing_empty_prefix(pages.drop_last());
    }
}

/// Every page fits an NBT string without being cut.
pub open spec fn pages_fit(pages: Seq<Seq<char>>) -> bool {
    forall|i: int| 0 <= i < pages.len() ==> #[trigger] encode_utf8(pages[i]).len() <= 65535
}

/// Reading back `q.len()` strings where `pages_bytes(q)` was written at
/// `pos` finds their end and gives back `q`.
proof fn lemma_read_pages(b: Seq<u8>, pos: int, q: Seq<Seq<char>>, d: nat)
    requires
        0 <= pos,
        pos + pages_bytes(q).len() <= b.len(),
        b.subrange(pos, pos + pages_bytes(q).len()) == pages_bytes(q),
        pages_fit(q),
    ensures
        list_end(8, b, pos, q.len() as int, d) == Some(pos + pages_bytes(q).len()),
        strings_in(b, pos, q.len() as int) == q,
    decreases q.len(),
{
    if q.len() == 0 {
        assert(strings_in(b, pos, 0) =~= q);
    } else {
        let e = encode_utf8(q[0]);
        let n = e.len() as int;
        let rest = q.drop_first();
        assert(encode_utf8(q[0]).len() <= 65535);
        let head = nbt_string_bytes(e);
        assert(head =~= seq![(n / 256) as u8, (n % 256) as u8] + e);
        assert(pages_bytes(q) == head + pages_bytes(rest));
        let total = pages_bytes(q).len() as int;
        assert(b[pos] == pages_bytes(q)[0]);
        assert(b[pos + 1] == pages_bytes(q)[1]);
        assert(u16_at(b, pos) == n);
        assert(string_end(b, pos) == Some(pos + 2 + n));
        assert(b.subrange(pos + 2, pos + 2 + n) =~= e) by {
            assert forall|k: int| 0 <= k < n implies b.subrange(pos + 2, pos + 2 + n)[k] == e[k] by {
                assert(b[pos + 2 + k] == pages_bytes(q)[2 + k]);
            }
        }
        let pos2 = pos + 2 + n;
        assert(b.subrange(pos2, pos2 + pages_bytes(rest).len()) =~= pages_bytes(rest)) by {
            assert forall|k: int| 0 <= k < pages_bytes(rest).len() implies b.subrange(
                pos2,
                pos2 + pages_bytes(rest).len(),
            )[k] == pages_bytes(rest)[k] by {
                assert(b[pos2 + k] == pages_bytes(q)[2 + n + k]);
            }
        }
        assert(pages_fit(rest)) by {
            assert forall|i: int| 0 <= i < rest.len() implies #[trigger] encode_utf8(rest[i]).len() <= 65535 by {
                assert(rest[i] == q[i + 1]);
            }
        }
        lemma_read_pages(b, pos2, rest, d);
        assert(pos2 <= b.len());
        assert(payload_end(8, b, pos, d) == Some(pos2));
        assert(rest.len() == q.len() - 1);
        assert(pages_bytes(q).len() == 2 + n + pages_bytes(rest).len());
        assert(list_end(8, b, pos, q.len() as int, d) == list_end(8, b, pos2, rest.len() as int, d));
        vstd::utf8::encode_utf8_valid_utf8(q[0]);
        vstd::utf8::encode_utf8_decode_utf8(q[0]);
        assert(strings_in(b, pos, q.len() as int) =~= q);
    }
}

/// Reopening a book from the unsigned payload it saves gives back its
/// pages, without the trailing empty ones (for at most 50 pages, each at
/// most 65535 bytes of UTF-8).
pub proof fn lemma_book_payload_round_trip(book: BookModel, author: Seq<char>)
    requires
        book.wf(),
        book.pages.len() <= MAX_BOOK_PAGES,
        pages_fit(book.pages),
    ensures
        spec_pages_from_nbt(Some(spec_nbt_payload(book, false, author))) == drop_trailing_empty(
            book.pages,
        ),
{
    let q = drop_trailing_empty(book.pages);
    lemma_drop_trailing_empty_prefix(book.pages);
    assert(pages_fit(q)) by {
        assert forall|i: int| 0 <= i < q.len() implies #[trigger] encode_utf8(q[i]).len() <= 65535 by {
            assert(q[i] == book.pages[i]);
        }
    }
    let b = spec_nbt_payload(book, false, author);
    let pb = pages_bytes(q);
    let len = pb.len() as int;
    let head = seq![10u8] + nbt_string_bytes(Seq::empty()) + seq![9u8] + nbt_string_bytes(name_pages())
        + seq![8u8] + count_bytes(q.len());
    assert(nbt_string_bytes(Seq::<u8>::empty()) =~= seq![0u8, 0u8]);
    assert(nbt_string_bytes(name_pages()) =~= seq![0u8, 5u8] + name_pages());
    assert(count_bytes(q.len()) =~= seq![0u8, 0u8, 0u8, q.len() as u8]);
    assert(head.len() == 16);
    assert(b =~= head + pb + seq![0u8]);
    assert(b.subrange(16, 16 + len) =~= pb);
    lemma_read_pages(b, 16, q, (MAX_NBT_DEPTH - 2) as nat);
    assert(b[0] == 10 && b[1] == 0 && b[2] == 0);
    assert(root_payload(b) == Some(3int));
    assert(b[3] == 9 && b[4] == 0 && b[5] == 5 && b[11] == 8);
    assert(string_end(b, 4) == Some(11int));
    assert(i32_at(b, 12) == q.len());
    assert(b[16 + len] == 0);
    let d1 = (MAX_NBT_DEPTH - 1) as nat;
    assert(payload_end(9, b, 11, d1) == Some(16 + len));
    assert(compound_end(b, 16 + len, d1) == Some(17 + len));
    assert(compound_end(b, 3, d1) == Some(17 + len));
    assert(payload_end(10, b, 3, MAX_NBT_DEPTH as nat) == Some(17 + len));
    assert(root_valid(b));
    assert(b.subrange(6, 11) =~= name_pages());
    assert(compound_lookup(b, 16 + len, d1, name_pages(), Some((9u8, 11int))) == Some((9u8, 11int)));
    assert(root_lookup(b, name_pages()) == Some((9u8, 11int)));
    assert(root_list(b, name_pages()) == Some((8u8, q.len() as int, 16int)));
    assert(cap_pages(strings_in(b, 16, q.len() as int)) =~= q);
    assert(spec_book_pages(b) == q);
}


/// A string tag named `name` (shorter than 256 bytes) with value `v`,
/// written at `pos`, reads back as a string entry of that name whose
/// payload ends where the tag ends.
proof fn lemma_named_string_at(b: Seq<u8>, pos: int, name: Seq<u8>, v: Seq<char>, d: nat)
    requires
        0 <= pos,
        name.len() < 256,
        pos + named_string_bytes(name, v).len() <= b.len(),
        b.subrange(pos, pos + named_string_bytes(name, v).len()) == named_string_bytes(name, v),
    ensures
        b[pos] == 8,
        string_end(b, pos + 1) == Some(pos + 3 + name.len()),
        b.subrange(pos + 3, pos + 3 + name.len()) == name,
        payload_end(8, b, pos + 3 + name.len(), d) == Some(pos + named_string_bytes(name, v).len()),
{
    let t = named_string_bytes(name, v);
    let e = encode_utf8(v);
    let m = if e.len() < 65535 { e.len() as int } else { 65535 };
    let ln = name.len() as int;
    assert(nbt_string_bytes(name) =~= seq![0u8, ln as u8] + name);
    assert(nbt_string_bytes(e) =~= seq![(m / 256) as u8, (m % 256) as u8] + e.take(m));
    assert(t.len() == 3 + ln + 2 + m);
    assert(b[pos] == t[0]);
    assert(b[pos + 1] == t[1] && b[pos + 2] == t[2]);
    assert(u16_at(b, pos + 1) == ln);
    assert(b.subrange(pos + 3, pos + 3 + ln) =~= name) by {
        assert forall|k: int| 0 <= k < ln implies b.subrange(pos + 3, pos + 3 + ln)[k] == name[k] by {
            assert(b[pos + 3 + k] == t[3 + k]);
        }
    }
    assert(b[pos + 3 + ln] == t[3 + ln] && b[pos + 4 + ln] == t[4 + ln]);
    assert(u16_at(b, pos + 3 + ln) == m);
}

/// Walking over a string tag whose name is not `pages`: the compound
/// ends, and an entry named `pages` is found, as from the tag's end.
proof fn lemma_string_tag_step(b: Seq<u8>, pos: int, name: Seq<u8>, v: Seq<char>, d: nat, found: Option<(u8, int)>)
    requires
        0 <= pos,
        name.len() < 256,
        name != name_pages(),
        pos + named_string_bytes(name, v).len() <= b.len(),
        b.subrange(pos, pos + named_string_bytes(name, v).len()) == named_string_bytes(name, v),
    ensures
        compound_end(b, pos, d) == compound_end(b, pos + named_string_bytes(name, v).len(), d),
        compound_lookup(b, pos, d, name_pages(), found) == compound_lookup(
            b,
            pos + named_string_bytes(name, v).len(),
            d,
            name_pages(),
            found,
        ),
{
    lemma_named_string_at(b, pos, name, v, d);
}

/// After the page list, the optional title and author tags and the end
/// byte close the compound and hold no entry named `pages`.
proof fn lemma_title_author_tail(
    b: Seq<u8>,
    l: int,
    title: Option<Seq<char>>,
    author: Option<Seq<char>>,
    d: nat,
    found: Option<(u8, int)>,
)
    requires
        0 <= l <= b.len(),
        b.subrange(l, b.len() as int) == optional_string_tag(name_title(), title) + optional_string_tag(
            name_author(),
            author,
        ) + seq![0u8],
    ensures
        compound_end(b, l, d) == Some(b.len() as int),
        compound_lookup(b, l, d, name_pages(), found) == found,
{
    let tt = optional_string_tag(name_title(), title);
    let at = optional_string_tag(name_author(), author);
    let l2 = l + tt.len();
    let l3 = l2 + at.len();
    let tail = b.subrange(l, b.len() as int);
    assert(tail.len() == b.len() - l);
    assert((tt + at + seq![0u8]).len() == tt.len() + at.len() + 1);
    assert(b.len() == l3 + 1);
    assert(b[l3] == tail[l3 - l]);
    assert(b[l3] == 0);
    assert(compound_end(b, l3, d) == Some(l3 + 1));
    assert(compound_lookup(b, l3, d, name_pages(), found) == found);
    match author {
        Some(a) => {
            assert(b.subrange(l2, l3) =~= named_string_bytes(name_author(), a)) by {
                assert forall|k: int| 0 <= k < l3 - l2 implies #[trigger] b.subrange(l2, l3)[k] == at[k] by {
                    assert(b[l2 + k] == tail[l2 - l + k]);
                }
            }
            assert(name_author().len() != name_pages().len());
            lemma_string_tag_step(b, l2, name_author(), a, d, found);
        },
        None => {},
    }
    match title {
        Some(t) => {
            assert(b.subrange(l, l2) =~= named_string_bytes(name_title(), t)) by {
                assert forall|k: int| 0 <= k < l2 - l implies #[trigger] b.subrange(l, l2)[k] == tt[k] by {
                    assert(b[l + k] == tail[k]);
                }
            }
            assert(name_title()[0] != name_pages()[0]);
            lemma_string_tag_step(b, l, name_title(), t, d, found);
        },
        None => {},
    }
}

/// The pages of a book NBT written with `spec_encode_book` read back as
/// the pages written, whatever title and author it carries (for at most
/// 50 pages, each at most 65535 bytes of UTF-8).
proof fn lemma_encoded_book_pages(q: Seq<Seq<char>>, title: Option<Seq<char>>, author: Option<Seq<char>>)
    requires
        q.len() <= MAX_BOOK_PAGES,
        pages_fit(q),
    ensures
        spec_book_pages(spec_encode_book(q, title, author)) == q,
{
    let b = spec_encode_book(q, title, author);
    let pb = pages_bytes(q);
    let len = pb.len() as int;
    let tt = optional_string_tag(name_title(), title);
    let at = optional_string_tag(name_author(), author);
    let head = seq![10u8] + nbt_string_bytes(Seq::empty()) + seq![9u8] + nbt_string_bytes(name_pages())
        + seq![8u8] + count_bytes(q.len());
    assert(nbt_string_bytes(Seq::<u8>::empty()) =~= seq![0u8, 0u8]);
    assert(nbt_string_bytes(name_pages()) =~= seq![0u8, 5u8] + name_pages());
    assert(count_bytes(q.len()) =~= seq![0u8, 0u8, 0u8, q.len() as u8]);
    assert(head.len() == 16);
    let l = 16 + len;
    let l2 = l + tt.len();
    let l3 = l2 + at.len();
    assert(b =~= head + pb + tt + at + seq![0u8]);
    assert(b.len() == l3 + 1);
    assert(b.subrange(16, l) =~= pb);
    lemma_read_pages(b, 16, q, (MAX_NBT_DEPTH - 2) as nat);
    let d1 = (MAX_NBT_DEPTH - 1) as nat;
    assert(b[0] == 10 && b[1] == 0 && b[2] == 0);
    assert(root_payload(b) == Some(3int));
    assert(b[3] == 9 && b[4] == 0 && b[5] == 5 && b[11] == 8);
    assert(string_end(b, 4) == Some(11int));
    assert(i32_at(b, 12) == q.len());
    assert(payload_end(9, b, 11, d1) == Some(l));
    assert(b.subrange(l, b.len() as int) =~= tt + at + seq![0u8]);
    lemma_title_author_tail(b, l, title, author, d1, Some((9u8, 11int)));
    assert(compound_end(b, l, d1) == Some(l3 + 1));
    assert(compound_lookup(b, l, d1, name_pages(), Some((9u8, 11int))) == Some((9u8, 11int)));
    assert(compound_end(b, 3, d1) == Some(l3 + 1));
    assert(payload_end(10, b, 3, MAX_NBT_DEPTH as nat) == Some(l3 + 1));
    assert(root_valid(b));
    assert(b.subrange(6, 11) =~= name_pages());
    assert(compound_lookup(b, 3, d1, name_pages(), None) == Some((9u8, 11int)));
    assert(root_lookup(b, name_pages()) == Some((9u8, 11int)));
    assert(root_list(b, name_pages()) == Some((8u8, q.len() as int, 16int)));
    assert(cap_pages(strings_in(b, 16, q.len() as int)) =~= q);
}

/// Signing sends the pages that saving sends, each wrapped as the JSON
/// text component `{"text":<string literal>}`: the signed and the saved
/// payload of a book hold the same number of pages, page by page (for at
/// most 50 pages, each, saved and wrapped, at most 65535 bytes of UTF-8).
pub proof fn lemma_signed_pages_wrap_saved_pages(book: BookModel, author: Seq<char>)
    requires
        book.wf(),
        book.pages.len() <= MAX_BOOK_PAGES,
        pages_fit(book.pages),
        forall|i: int|
            #![trigger drop_trailing_empty(book.pages)[i]]
            0 <= i < drop_trailing_empty(book.pages).len() ==> encode_utf8(
                seq!['{', '"', 't', 'e', 'x', 't', '"', ':'] + json_string_literal(drop_trailing_empty(book.pages)[i])
                    + seq!['}'],
            ).len() <= 65535,
    ensures
        ({
            let saved = spec_pages_from_nbt(Some(spec_nbt_payload(book, false, author)));
            let signed = spec_pages_from_nbt(Some(spec_nbt_payload(book, true, author)));
            &&& saved == drop_trailing_empty(book.pages)
            &&& signed.len() == saved.len()
            &&& forall|i: int|
                #![trigger signed[i]]
                0 <= i < saved.len() ==> signed[i] == seq!['{', '"', 't', 'e', 'x', 't', '"', ':']
                    + json_string_literal(saved[i]) + seq!['}']
        }),
{
    let q = drop_trailing_empty(book.pages);
    lemma_drop_trailing_empty_prefix(book.pages);
    assert(pages_fit(q)) by {
        assert forall|i: int| 0 <= i < q.len() implies #[trigger] encode_utf8(q[i]).len() <= 65535 by {
            assert(q[i] == book.pages[i]);
        }
    }
    let sq = signed_pages(q);
    assert(pages_fit(sq)) by {
        assert forall|i: int| 0 <= i < sq.len() implies #[trigger] encode_utf8(sq[i]).len() <= 65535 by {
            assert(sq[i] == seq!['{', '"', 't', 'e', 'x', 't', '"', ':'] + json_string_literal(q[i]) + seq!['}']);
        }
    }
    lemma_encoded_book_pages(q, None, None);
    lemma_encoded_book_pages(sq, Some(spec_trim(book.title)), Some(author));
}

/// Typing never takes a page past 256 characters, a title past 16, or the
/// book past 50 pages.
pub proof fn lemma_editing_respects_limits(page: Seq<char>, title: Seq<char>, text: Seq<char>, pages: nat)
    ensures
        page.len() <= MAX_BOOK_PAGE_CHARS ==> append_limited(page, page_chars(text), MAX_BOOK_PAGE_CHARS as int).len()
            <= MAX_BOOK_PAGE_CHARS,
        title.len() <= MAX_BOOK_TITLE_CHARS ==> append_limited(title, title_chars(text), MAX_BOOK_TITLE_CHARS as int).len()
            <= MAX_BOOK_TITLE_CHARS,
        pages <= MAX_BOOK_PAGES ==> (if pages < MAX_BOOK_PAGES { pages + 1 } else { pages }) <= MAX_BOOK_PAGES,
{
}

} // verus!
