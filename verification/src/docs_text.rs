//! Styled text collection for the documentation renderer.
//!
//! A [`TextBuffer`] gathers inline segments — plain, emphasized, code,
//! linked — that are later wrapped and colored together. Only the
//! collection and the plain-text projection live here; applying terminal
//! styles is the front end's business.

use vstd::prelude::*;
use vstd::string::*;

use crate::strutil::{space_char, strip_space_ends, trim_spaces};

verus! {

/// One run of text with its styling.
#[derive(Debug, Clone)]
pub struct StyledSegment {
    /// The text itself.
    pub text: String,
    /// Bold styling.
    pub bold: bool,
    /// Italic styling.
    pub italic: bool,
    /// Inline code styling.
    pub code: bool,
    /// The target when the run is a link.
    pub link_url: Option<String>,
}

impl StyledSegment {
    /// An inline-code segment.
    pub fn code(text: &str) -> (r: StyledSegment)
        ensures
            r.text@ == text@,
            !r.bold,
            !r.italic,
            r.code,
            r.link_url is None,
    {
        StyledSegment {
            text: String::from_str(text),
            bold: false,
            italic: false,
            code: true,
            link_url: None,
        }
    }
}

/// The plain rendering of segments: code runs between backticks, all else
/// verbatim, concatenated in order.
pub open spec fn spec_plain_text(segs: Seq<StyledSegment>) -> Seq<char>
    decreases segs.len(),
{
    if segs.len() == 0 {
        Seq::empty()
    } else {
        let piece = if segs[0].code {
            "`"@ + segs[0].text@ + "`"@
        } else {
            segs[0].text@
        };
        piece + spec_plain_text(segs.skip(1))
    }
}

/// Buffer for inline content that is wrapped together.
#[derive(Debug, Clone)]
pub struct TextBuffer {
    /// The collected segments, in order.
    pub segments: Vec<StyledSegment>,
    /// Bold styling is active for new text.
    pub bold: bool,
    /// Italic styling is active for new text.
    pub italic: bool,
    /// Link target active for new text.
    pub link_url: Option<String>,
}

impl TextBuffer {
    /// An empty buffer with no styling active.
    pub fn new() -> (r: TextBuffer)
        ensures
            r.segments@.len() == 0,
            !r.bold,
            !r.italic,
            r.link_url is None,
    {
        TextBuffer { segments: Vec::new(), bold: false, italic: false, link_url: None }
    }

    /// Appends a run of text under the active styling; empty text is
    /// dropped.
    pub fn push_text(&mut self, text: &str)
        ensures
            text@.len() == 0 ==> *final(self) == *old(self),
            text@.len() > 0 ==> ({
                let segs = final(self).segments@;
                &&& *final(self) == (TextBuffer { segments: final(self).segments, ..*old(self) })
                &&& segs.len() == old(self).segments@.len() + 1
                &&& segs.take(old(self).segments@.len() as int) == old(self).segments@
                &&& segs.last().text@ == text@
                &&& segs.last().bold == old(self).bold
                &&& segs.last().italic == old(self).italic
                &&& !segs.last().code
                &&& (match segs.last().link_url {
                    Some(u) => old(self).link_url matches Some(v) && u@ == v@,
                    None => old(self).link_url is None,
                })
            }),
    {
        if text.unicode_len() == 0 {
            return ;
        }
        let link_url = match &self.link_url {
            Some(u) => Some(u.clone()),
            None => None,
        };
        let ghost prev = self.segments@;
        self.segments.push(
            StyledSegment {
                text: String::from_str(text),
                bold: self.bold,
                italic: self.italic,
                code: false,
                link_url,
            },
        );
        proof {
            assert(self.segments@.take(prev.len() as int) =~= prev);
        }
    }

    /// Appends an inline-code run.
    pub fn push_code(&mut self, text: &str)
        ensures
            ({
                let segs = final(self).segments@;
                &&& *final(self) == (TextBuffer { segments: final(self).segments, ..*old(self) })
                &&& segs.len() == old(self).segments@.len() + 1
                &&& segs.take(old(self).segments@.len() as int) == old(self).segments@
                &&& segs.last().text@ == text@
                &&& segs.last().code
            }),
    {
        let ghost prev = self.segments@;
        self.segments.push(StyledSegment::code(text));
        proof {
            assert(self.segments@.take(prev.len() as int) =~= prev);
        }
    }

    /// Appends the parenthesized target of a finished link; fragment-only
    /// targets are dropped.
    pub fn push_link_url(&mut self, url: &str)
        ensures
            (url@.len() > 0 && url@[0] == '#') ==> *final(self) == *old(self),
            !(url@.len() > 0 && url@[0] == '#') ==> ({
                let segs = final(self).segments@;
                &&& *final(self) == (TextBuffer { segments: final(self).segments, ..*old(self) })
                &&& segs.len() == old(self).segments@.len() + 1
                &&& segs.take(old(self).segments@.len() as int) == old(self).segments@
                &&& segs.last().text@ == " ("@ + url@ + ")"@
                &&& !segs.last().code
                &&& (segs.last().link_url matches Some(u) && u@ == url@)
            }),
    {
        if url.unicode_len() > 0 && url.get_char(0) == '#' {
            return ;
        }
        let mut text = String::from_str(" (");
        text.append(url);
        text.append(")");
        let ghost prev = self.segments@;
        self.segments.push(
            StyledSegment {
                text,
                bold: false,
                italic: false,
                code: false,
                link_url: Some(String::from_str(url)),
            },
        );
        proof {
            assert(self.segments@.take(prev.len() as int) =~= prev);
        }
    }

    /// Empties the buffer and resets all styling.
    pub fn clear(&mut self)
        ensures
            final(self).segments@.len() == 0,
            !final(self).bold,
            !final(self).italic,
            final(self).link_url is None,
    {
        self.segments.clear();
        self.bold = false;
        self.italic = false;
        self.link_url = None;
    }

    /// Whether the buffer holds nothing but whitespace.
    pub fn is_empty(&self) -> (r: bool)
        ensures
            r == (forall|i: int|
                0 <= i < self.segments@.len() ==> trim_spaces(
                    (#[trigger] self.segments@[i]).text@,
                ).len() == 0),
    {
        let n: usize = self.segments.len();
        let mut i: usize = 0;
        while i < n
            invariant
                n == self.segments@.len(),
                0 <= i <= n,
                forall|j: int|
                    0 <= j < i ==> trim_spaces((#[trigger] self.segments@[j]).text@).len() == 0,
            decreases n - i,
        {
            let trimmed = strip_space_ends(self.segments[i].text.as_str());
            if trimmed.unicode_len() != 0 {
                assert(trim_spaces(self.segments@[i as int].text@).len() != 0);
                return false;
            }
            i = i + 1;
        }
        true
    }

    /// The plain text of the collected segments, for wrapping.
    pub fn plain_text(&self) -> (r: String)
        ensures
            r@ == spec_plain_text(self.segments@),
    {
        let ghost all = self.segments@;
        let n: usize = self.segments.len();
        let mut out = String::new();
        let mut i: usize = 0;
        proof {
            assert(all.skip(0) =~= all);
        }
        while i < n
            invariant
                n == self.segments@.len(),
                all == self.segments@,
                0 <= i <= n,
                spec_plain_text(all) == out@ + spec_plain_text(all.skip(i as int)),
            decreases n - i,
        {
            let ghost rest = all.skip(i as int);
            proof {
                assert(rest[0] == all[i as int]);
                assert(rest.skip(1) =~= all.skip(i + 1));
            }
            let ghost out_before = out@;
            if self.segments[i].code {
                out.append("`");
                out.append(self.segments[i].text.as_str());
                out.append("`");
                proof {
                    assert(out@ =~= out_before + ("`"@ + all[i as int].text@ + "`"@));
                }
            } else {
                out.append(self.segments[i].text.as_str());
            }
            proof {
                let piece = if all[i as int].code {
                    "`"@ + all[i as int].text@ + "`"@
                } else {
                    all[i as int].text@
                };
                assert(out@ == out_before + piece);
                assert(out_before + (piece + spec_plain_text(all.skip(i + 1))) =~= (out_before
                    + piece) + spec_plain_text(all.skip(i + 1)));
            }
            i = i + 1;
        }
        proof {
            assert(all.skip(n as int) =~= Seq::<StyledSegment>::empty());
            assert(out@ + Seq::<char>::empty() =~= out@);
        }
        out
    }
}

} // verus!
