//! Pure helpers of the page-lookup command: choosing the platform, building
//! the two candidate page addresses, and splitting a fetched page into its
//! title and body.
//!
//! A page is plain text: its first line, stripped of leading spaces and
//! number signs, is the title; the remaining lines, joined by line feeds,
//! are the body.  Line endings may be bare line feeds or carriage return
//! and line feed.

use vstd::prelude::*;

use crate::text::{joined, str_eq, string_views};

verus! {

/// The position of the first line feed at or after `i`, or the end.
pub open spec fn first_newline(s: Seq<char>, i: int) -> int
    decreases s.len() - i,
    when 0 <= i <= s.len()
{
    if i < s.len() {
        if s[i] == '\n' {
            i
        } else {
            first_newline(s, i + 1)
        }
    } else {
        s.len() as int
    }
}

/// The first line feed at or after `i` stands between `i` and the end.
pub proof fn lemma_first_newline_bound(s: Seq<char>, i: int)
    requires
        0 <= i <= s.len(),
    ensures
        i <= first_newline(s, i) <= s.len(),
    decreases s.len() - i,
{
    if i < s.len() && s[i] != '\n' {
        lemma_first_newline_bound(s, i + 1);
    }
}

/// A line with a final carriage return dropped.
pub open spec fn chomp_cr(line: Seq<char>) -> Seq<char> {
    if line.len() > 0 && line.last() == '\r' {
        line.drop_last()
    } else {
        line
    }
}

/// The lines of the text from position `p` on: each runs to the next line
/// feed or the end, with a final carriage return dropped; a trailing line
/// feed opens no further line.
pub open spec fn lines_from(s: Seq<char>, p: int) -> Seq<Seq<char>>
    decreases s.len() - p,
    when 0 <= p <= s.len()
{
    if p >= s.len() {
        Seq::empty()
    } else {
        let k = first_newline(s, p);
        proof {
            lemma_first_newline_bound(s, p);
        }
        let line = chomp_cr(s.subrange(p, k));
        if k == s.len() {
            seq![line]
        } else {
            seq![line] + lines_from(s, k + 1)
        }
    }
}

/// The lines of the whole text.
pub open spec fn split_lines(s: Seq<char>) -> Seq<Seq<char>> {
    lines_from(s, 0)
}

/// The position where a line's heading content starts, past leading spaces
/// and number signs.
pub open spec fn heading_start(line: Seq<char>, i: int) -> int
    decreases line.len() - i,
    when 0 <= i <= line.len()
{
    if i < line.len() && (line[i] == ' ' || line[i] == '#') {
        heading_start(line, i + 1)
    } else {
        i
    }
}

/// The heading content of a line starts between `i` and the end.
pub proof fn lemma_heading_start_bound(line: Seq<char>, i: int)
    requires
        0 <= i <= line.len(),
    ensures
        i <= heading_start(line, i) <= line.len(),
    decreases line.len() - i,
{
    if i < line.len() && (line[i] == ' ' || line[i] == '#') {
        lemma_heading_start_bound(line, i + 1);
    }
}

/// The title and body of a page: the first line, stripped of leading spaces
/// and number signs, and the remaining lines joined by line feeds.  An empty
/// page has neither.
pub open spec fn tldr_content(s: Seq<char>) -> Option<(Seq<char>, Seq<char>)> {
    let lines = split_lines(s);
    if lines.len() == 0 {
        None
    } else {
        Some(
            (
                lines[0].skip(heading_start(lines[0], 0)),
                joined(lines.drop_first(), seq!['\n']),
            ),
        )
    }
}

/// Splits a fetched page into its title and body; an empty page has
/// neither.
pub fn get_tldr_content_from_markdown(tldr_body: &str) -> (r: Option<(&str, String)>)
    ensures
        ({
            let content = tldr_content(tldr_body@);
            match r {
                Some(pair) => content is Some && ({
                    let expected = content->0;
                    pair.0@ == expected.0 && pair.1@ == expected.1
                }),
                None => content is None,
            }
        }),
{
    let ghost s = tldr_body@;
    let n = tldr_body.unicode_len();
    if n == 0 {
        return None;
    }
    let mut k: usize = 0;
    while k < n && tldr_body.get_char(k) != '\n'
        invariant
            0 <= k <= n,
            n == s.len(),
            s == tldr_body@,
            first_newline(s, 0) == first_newline(s, k as int),
        decreases n - k,
    {
        k = k + 1;
    }
    proof {
        assert(first_newline(s, 0) == k as int);
    }
    let line_end = if k > 0 && tldr_body.get_char(k - 1) == '\r' {
        k - 1
    } else {
        k
    };
    let ghost line = chomp_cr(s.subrange(0, k as int));
    proof {
        assert(line =~= s.subrange(0, line_end as int));
    }
    let mut t: usize = 0;
    while t < line_end && (tldr_body.get_char(t) == ' ' || tldr_body.get_char(t) == '#')
        invariant
            0 <= t <= line_end,
            line_end <= k <= n,
            n == s.len(),
            s == tldr_body@,
            line == s.subrange(0, line_end as int),
            heading_start(line, 0) == heading_start(line, t as int),
        decreases line_end - t,
    {
        proof {
            assert(line[t as int] == s[t as int]);
        }
        t = t + 1;
    }
    proof {
        assert(t < line_end ==> line[t as int] == s[t as int]);
        assert(heading_start(line, 0) == t as int);
    }
    let title = tldr_body.substring_char(t, line_end);
    proof {
        assert(title@ =~= line.skip(t as int));
    }
    let body = if k == n {
        proof {
            assert(split_lines(s) =~= seq![line]);
        }
        String::new()
    } else {
        let mut rest: Vec<String> = Vec::new();
        let mut p: usize = k + 1;
        proof {
            assert(split_lines(s) == (seq![line] + lines_from(s, k + 1)));
            assert(string_views(rest@) + lines_from(s, p as int) =~= lines_from(s, k + 1));
        }
        while p < n
            invariant
                0 <= p <= n,
                n == s.len(),
                s == tldr_body@,
                string_views(rest@) + lines_from(s, p as int) == lines_from(s, k + 1),
                k < n,
            decreases n - p,
        {
            let mut e = p;
            while e < n && tldr_body.get_char(e) != '\n'
                invariant
                    p <= e <= n,
                    n == s.len(),
                    s == tldr_body@,
                    first_newline(s, p as int) == first_newline(s, e as int),
                decreases n - e,
            {
                e = e + 1;
            }
            proof {
                assert(first_newline(s, p as int) == e as int);
            }
            let rest_line_end = if e > p && tldr_body.get_char(e - 1) == '\r' {
                e - 1
            } else {
                e
            };
            let ghost rest_line = chomp_cr(s.subrange(p as int, e as int));
            proof {
                assert(rest_line =~= s.subrange(p as int, rest_line_end as int));
            }
            let ghost before = rest@;
            let piece = String::from_str(tldr_body.substring_char(p, rest_line_end));
            rest.push(piece);
            proof {
                assert(string_views(rest@) =~= string_views(before).push(rest_line));
            }
            if e == n {
                proof {
                    assert(lines_from(s, p as int) =~= seq![rest_line]);
                    assert(string_views(before).push(rest_line) + lines_from(s, n as int)
                        =~= string_views(before) + seq![rest_line]);
                }
                p = e;
                proof {
                    assert(string_views(rest@) + lines_from(s, p as int) =~= lines_from(
                        s,
                        k + 1,
                    ));
                }
            } else {
                proof {
                    assert(lines_from(s, p as int) == (seq![rest_line] + lines_from(s, e + 1)));
                    assert(string_views(before).push(rest_line) + lines_from(s, e + 1)
                        =~= string_views(before) + (seq![rest_line] + lines_from(s, e + 1)));
                }
                p = e + 1;
            }
        }
        proof {
            assert(lines_from(s, n as int) =~= Seq::<Seq<char>>::empty());
            assert(string_views(rest@) + Seq::<Seq<char>>::empty() =~= string_views(rest@));
            assert(string_views(rest@) == lines_from(s, k + 1));
        }
        let joined_rest = crate::text::join_strings(&rest, "\n");
        proof {
            reveal_strlit("\n");
            assert("\n"@ =~= seq!['\n']);
        }
        joined_rest
    };
    proof {
        let lines = split_lines(s);
        assert(lines.len() > 0);
        assert(lines[0] == line);
        if k < n {
            assert(lines.drop_first() =~= lines_from(s, k + 1));
        } else {
            assert(lines.drop_first() =~= Seq::<Seq<char>>::empty());
        }
    }
    Some((title, body))
}

/// Whether the platform name is one the pages are kept for; anything else
/// falls back to the default.
pub open spec fn platform_or_default(platform: Seq<char>) -> Seq<char> {
    if platform == "linux"@ || platform == "windows"@ || platform == "macos"@ {
        platform
    } else {
        "linux"@
    }
}

/// Chooses the platform whose pages to search: the given one when it is
/// known, the default otherwise.
pub fn resolve_platform(platform_arg: &str) -> (r: &str)
    ensures
        r@ == platform_or_default(platform_arg@),
{
    if str_eq(platform_arg, "linux") || str_eq(platform_arg, "windows") || str_eq(
        platform_arg,
        "macos",
    ) {
        platform_arg
    } else {
        "linux"
    }
}

/// The address of one page in the page repository.
pub open spec fn tldr_page_url(platform: Seq<char>, name: Seq<char>) -> Seq<char> {
    "https://raw.githubusercontent.com/tldr-pages/tldr/master/pages/"@ + platform + "/"@ + name
        + ".md"@
}

/// Builds the two candidate page addresses for a search: the page under the
/// chosen platform, and the shared page.
pub fn build_tldr_urls(platform: &str, search: &str) -> (r: (String, String))
    ensures
        r.0@ == tldr_page_url(platform@, search@),
        r.1@ == tldr_page_url("common"@, search@),
{
    let mut first = String::from_str("https://raw.githubusercontent.com/tldr-pages/tldr/master/pages/");
    first.append(platform);
    first.append("/");
    first.append(search);
    first.append(".md");
    let mut second = String::from_str(
        "https://raw.githubusercontent.com/tldr-pages/tldr/master/pages/",
    );
    second.append("common");
    second.append("/");
    second.append(search);
    second.append(".md");
    (first, second)
}

} // verus!
