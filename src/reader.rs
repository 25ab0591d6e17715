use vstd::prelude::*;

use crate::text::{chars_of, parse_code, parse_u32, string_of};

verus! {

/// Information about a selected feed item for reading or opening.
#[derive(Clone, Debug)]
pub struct SelectedItem {
    pub title: String,
    pub url: Option<String>,
    pub description: Option<String>,
    pub source: String,
    pub metadata: Option<String>,
}

/// The article reader overlay: whether it shows, the item, and the scroll offset
/// within `content_height` lines of rendered content.
pub struct ArticleReader {
    pub visible: bool,
    pub item: Option<SelectedItem>,
    pub scroll_offset: u16,
    pub content_height: u16,
}

impl Default for ArticleReader {
    fn default() -> (r: ArticleReader)
        ensures
            !r.visible,
            r.item.is_none(),
            r.scroll_offset == 0,
            r.content_height == 0,
    {
        ArticleReader { visible: false, item: None, scroll_offset: 0, content_height: 0 }
    }
}

/// The last line the reader can scroll to.
pub open spec fn max_scroll(content_height: u16) -> int {
    if content_height > 0 {
        content_height - 1
    } else {
        0
    }
}

impl ArticleReader {
    /// Shows `item` from its top.
    pub fn show(&mut self, item: SelectedItem)
        ensures
            final(self).visible,
            final(self).item == Some(item),
            final(self).scroll_offset == 0,
            final(self).content_height == old(self).content_height,
    {
        self.item = Some(item);
        self.scroll_offset = 0;
        self.visible = true;
    }

    /// Hides the reader and forgets the item.
    pub fn close(&mut self)
        ensures
            !final(self).visible,
            final(self).item.is_none(),
            final(self).scroll_offset == 0,
            final(self).content_height == old(self).content_height,
    {
        self.visible = false;
        self.item = None;
        self.scroll_offset = 0;
    }

    /// Closes the reader when it shows; a hidden reader stays as it is.
    pub fn toggle(&mut self)
        ensures
            old(self).visible ==> !final(self).visible && final(self).item.is_none()
                && final(self).scroll_offset == 0 && final(self).content_height == old(
                self,
            ).content_height,
            !old(self).visible ==> *final(self) == *old(self),
    {
        if self.visible {
            self.close();
        }
    }

    /// One line up, stopping at the top.
    pub fn scroll_up(&mut self)
        ensures
            *final(self) == (ArticleReader {
                scroll_offset: if old(self).scroll_offset > 0 {
                    (old(self).scroll_offset - 1) as u16
                } else {
                    0
                },
                ..*old(self)
            }),
    {
        self.scroll_offset = self.scroll_offset.saturating_sub(1);
    }

    /// One line down, stopping at the last line.
    pub fn scroll_down(&mut self)
        ensures
            *final(self) == (ArticleReader {
                scroll_offset: if old(self).scroll_offset < max_scroll(old(self).content_height) {
                    (old(self).scroll_offset + 1) as u16
                } else {
                    old(self).scroll_offset
                },
                ..*old(self)
            }),
    {
        if self.scroll_offset < self.content_height.saturating_sub(1) {
            self.scroll_offset = self.scroll_offset + 1;
        }
    }

    /// `page_size` lines up, stopping at the top.
    pub fn page_up(&mut self, page_size: u16)
        ensures
            *final(self) == (ArticleReader {
                scroll_offset: if old(self).scroll_offset > page_size {
                    (old(self).scroll_offset - page_size) as u16
                } else {
                    0
                },
                ..*old(self)
            }),
    {
        self.scroll_offset = self.scroll_offset.saturating_sub(page_size);
    }

    /// `page_size` lines down, stopping at the last line.
    pub fn page_down(&mut self, page_size: u16)
        ensures
            *final(self) == (ArticleReader {
                scroll_offset: if old(self).scroll_offset + page_size < max_scroll(
                    old(self).content_height,
                ) {
                    (old(self).scroll_offset + page_size) as u16
                } else {
                    max_scroll(old(self).content_height) as u16
                },
                ..*old(self)
            }),
    {
        let max = self.content_height.saturating_sub(1);
        let target: u32 = self.scroll_offset as u32 + page_size as u32;
        self.scroll_offset = if target < max as u32 {
            target as u16
        } else {
            max
        };
    }

    /// The shown item's URL, if any.
    pub fn get_url(&self) -> (r: Option<&String>)
        ensures
            r == match self.item {
                Some(i) => match i.url {
                    Some(u) => Some(&u),
                    None => None,
                },
                None => None::<&String>,
            },
    {
        match &self.item {
            Some(i) => match &i.url {
                Some(u) => Some(u),
                None => None,
            },
            None => None,
        }
    }
}

/// Whether `c` has Unicode's White_Space property.
pub open spec fn is_space(c: char) -> bool {
    ||| '\u{9}' <= c <= '\u{d}'
    ||| c == ' '
    ||| c == '\u{85}'
    ||| c == '\u{a0}'
    ||| c == '\u{1680}'
    ||| '\u{2000}' <= c <= '\u{200a}'
    ||| c == '\u{2028}'
    ||| c == '\u{2029}'
    ||| c == '\u{202f}'
    ||| c == '\u{205f}'
    ||| c == '\u{3000}'
}

/// Relies on char::is_whitespace: true exactly of the characters with Unicode's
/// White_Space property.
#[verifier::external_body]
pub(crate) fn char_is_space(c: char) -> (r: bool)
    ensures
        r == is_space(c),
{
    c.is_whitespace()
}

/// The character with scalar value `code`.
pub uninterp spec fn char_for_code(code: u32) -> char;

/// Relies on char::from_u32: a character for every Unicode scalar value (below
/// 0xD800, or from 0xE000 to 0x10FFFF), none for other codes.
#[verifier::external_body]
fn char_from_code(code: u32) -> (r: Option<char>)
    ensures
        r.is_some() <==> (code < 0xD800 || (0xE000 <= code && code <= 0x10FFFF)),
        r matches Some(c) ==> c == char_for_code(code),
{
    char::from_u32(code)
}

/// The text a character entity (the part between '&' and ';') stands for: the
/// named ones, or a decimal code point after '#'; nothing for any other.
pub open spec fn entity_text(e: Seq<char>) -> Seq<char> {
    if e == "amp"@ {
        seq!['&']
    } else if e == "lt"@ {
        seq!['<']
    } else if e == "gt"@ {
        seq!['>']
    } else if e == "quot"@ {
        seq!['"']
    } else if e == "apos"@ || e == "#39"@ {
        seq!['\'']
    } else if e == "nbsp"@ {
        seq![' ']
    } else if e.len() > 0 && e[0] == '#' {
        match parse_u32(e.drop_first()) {
            Some(code) => if code < 0xD800 || (0xE000 <= code && code <= 0x10FFFF) {
                seq![char_for_code(code)]
            } else {
                seq![]
            },
            None => seq![],
        }
    } else {
        seq![]
    }
}

/// Scanner state: inside a tag, inside an entity, the entity so far, the output.
pub struct StripState {
    pub in_tag: bool,
    pub in_entity: bool,
    pub entity: Seq<char>,
    pub out: Seq<char>,
}

pub open spec fn strip_step(st: StripState, ch: char) -> StripState {
    if ch == '<' {
        StripState { in_tag: true, ..st }
    } else if ch == '>' {
        StripState { in_tag: false, ..st }
    } else if ch == '&' && !st.in_tag {
        StripState { in_entity: true, entity: seq![], ..st }
    } else if ch == ';' && st.in_entity {
        StripState { in_entity: false, entity: seq![], out: st.out + entity_text(st.entity), ..st }
    } else if st.in_entity {
        StripState { entity: st.entity.push(ch), ..st }
    } else if !st.in_tag {
        StripState { out: st.out.push(ch), ..st }
    } else {
        st
    }
}

/// The scanner's state after reading `s`.
pub open spec fn strip_run(s: Seq<char>) -> StripState
    decreases s.len(),
{
    if s.len() == 0 {
        StripState { in_tag: false, in_entity: false, entity: seq![], out: seq![] }
    } else {
        strip_step(strip_run(s.drop_last()), s.last())
    }
}

/// Each run of white space replaced by its first character, kept as a line feed
/// when that is one and as a space otherwise. The flag tells whether `s` ends in
/// white space.
pub open spec fn collapse(s: Seq<char>) -> (Seq<char>, bool)
    decreases s.len(),
{
    if s.len() == 0 {
        (seq![], false)
    } else {
        let (t, last_space) = collapse(s.drop_last());
        let c = s.last();
        if is_space(c) {
            if last_space {
                (t, true)
            } else {
                (t.push(if c == '\n' { '\n' } else { ' ' }), true)
            }
        } else {
            (t.push(c), false)
        }
    }
}

pub open spec fn trim_start(s: Seq<char>) -> Seq<char>
    decreases s.len(),
{
    if s.len() > 0 && is_space(s[0]) {
        trim_start(s.drop_first())
    } else {
        s
    }
}

pub open spec fn trim_end(s: Seq<char>) -> Seq<char>
    decreases s.len(),
{
    if s.len() > 0 && is_space(s.last()) {
        trim_end(s.drop_last())
    } else {
        s
    }
}

/// Plain text of an HTML fragment: tags dropped, entities decoded, white space
/// runs collapsed, the ends trimmed.
pub open spec fn stripped_text(html: Seq<char>) -> Seq<char> {
    trim_end(trim_start(collapse(strip_run(html).out).0))
}

fn chars_equal(v: &Vec<char>, s: &str) -> (r: bool)
    ensures
        r == (v@ == s@),
{
    let w = chars_of(s);
    if v.len() != w.len() {
        return false;
    }
    let mut i: usize = 0;
    while i < v.len()
        invariant
            v@.len() == w@.len(),
            w@ == s@,
            0 <= i <= v@.len(),
            forall|j: int| 0 <= j < i ==> v@[j] == w@[j],
        decreases v.len() - i,
    {
        if v[i] != w[i] {
            return false;
        }
        i += 1;
    }
    assert(v@ =~= w@);
    true
}

/// The characters without white space at either end.
pub(crate) fn trim_chars(v: &Vec<char>) -> (r: Vec<char>)
    ensures
        r@ == trim_end(trim_start(v@)),
{
    let mut lo: usize = 0;
    assert(v@.subrange(0, v@.len() as int) =~= v@);
    while lo < v.len() && char_is_space(v[lo])
        invariant
            0 <= lo <= v@.len(),
            trim_start(v@) == trim_start(v@.subrange(lo as int, v@.len() as int)),
        decreases v.len() - lo,
    {
        assert(v@.subrange(lo as int, v@.len() as int).drop_first() =~= v@.subrange(
            lo as int + 1,
            v@.len() as int,
        ));
        lo += 1;
    }
    let mut hi: usize = v.len();
    while hi > lo && char_is_space(v[hi - 1])
        invariant
            lo <= hi <= v@.len(),
            trim_end(v@.subrange(lo as int, v@.len() as int)) == trim_end(
                v@.subrange(lo as int, hi as int),
            ),
        decreases hi,
    {
        assert(v@.subrange(lo as int, hi as int).drop_last() =~= v@.subrange(
            lo as int,
            hi as int - 1,
        ));
        hi -= 1;
    }
    let ghost mid = v@.subrange(lo as int, v@.len() as int);
    assert(trim_start(mid) == mid);
    let mut out: Vec<char> = Vec::new();
    let mut k = lo;
    while k < hi
        invariant
            lo <= k <= hi <= v@.len(),
            out@ == v@.subrange(lo as int, k as int),
        decreases hi - k,
    {
        out.push(v[k]);
        assert(out@ =~= v@.subrange(lo as int, k as int + 1));
        k += 1;
    }
    let ghost sub = v@.subrange(lo as int, hi as int);
    assert(trim_end(sub) == sub);
    out
}

/// Plain text of an HTML fragment; see `stripped_text`.
pub fn strip_html_tags(html: &str) -> (r: String)
    ensures
        r@ == stripped_text(html@),
{
    let input = chars_of(html);
    let mut out: Vec<char> = Vec::new();
    let mut entity: Vec<char> = Vec::new();
    let mut in_tag = false;
    let mut in_entity = false;
    let mut i: usize = 0;
    while i < input.len()
        invariant
            input@ == html@,
            0 <= i <= input@.len(),
            strip_run(input@.take(i as int)) == (StripState {
                in_tag,
                in_entity,
                entity: entity@,
                out: out@,
            }),
        decreases input.len() - i,
    {
        let ch = input[i];
        assert(input@.take(i as int + 1).drop_last() =~= input@.take(i as int));
        assert(input@.take(i as int + 1).last() == ch);
        if ch == '<' {
            in_tag = true;
        } else if ch == '>' {
            in_tag = false;
        } else if ch == '&' && !in_tag {
            in_entity = true;
            entity = Vec::new();
        } else if ch == ';' && in_entity {
            in_entity = false;
            let ghost before = out@;
            let ghost e = entity@;
            if chars_equal(&entity, "amp") {
                out.push('&');
            } else if chars_equal(&entity, "lt") {
                out.push('<');
            } else if chars_equal(&entity, "gt") {
                out.push('>');
            } else if chars_equal(&entity, "quot") {
                out.push('"');
            } else if chars_equal(&entity, "apos") || chars_equal(&entity, "#39") {
                out.push('\'');
            } else if chars_equal(&entity, "nbsp") {
                out.push(' ');
            } else if entity.len() > 0 && entity[0] == '#' {
                assert(entity@.subrange(1, entity@.len() as int) =~= entity@.drop_first());
                match parse_code(&entity, 1) {
                    Some(code) => match char_from_code(code) {
                        Some(c) => {
                            out.push(c);
                        },
                        None => {},
                    },
                    None => {},
                }
            }
            assert(out@ =~= before + entity_text(e));
            entity = Vec::new();
        } else if in_entity {
            entity.push(ch);
        } else if !in_tag {
            out.push(ch);
        }
        assert(entity@ =~= strip_run(input@.take(i as int + 1)).entity);
        assert(out@ =~= strip_run(input@.take(i as int + 1)).out);
        i += 1;
    }
    assert(input@.take(i as int) =~= html@);
    let mut clean: Vec<char> = Vec::new();
    let mut last_space = false;
    let mut j: usize = 0;
    while j < out.len()
        invariant
            0 <= j <= out@.len(),
            collapse(out@.take(j as int)) == (clean@, last_space),
        decreases out.len() - j,
    {
        let c = out[j];
        assert(out@.take(j as int + 1).drop_last() =~= out@.take(j as int));
        assert(out@.take(j as int + 1).last() == c);
        if char_is_space(c) {
            if !last_space {
                clean.push(if c == '\n' { '\n' } else { ' ' });
                last_space = true;
            }
        } else {
            clean.push(c);
            last_space = false;
        }
        j += 1;
    }
    assert(out@.take(j as int) =~= out@);
    string_of(&trim_chars(&clean))
}

} // verus!
