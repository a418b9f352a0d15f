//! Placeholder expansion for viewer command lines.
//!
//! An argument template is scanned chunk by chunk: `%f`, `%p` and `%l` are
//! replaced by the document path, the output path and the one-based line
//! number; `%%` escapes a percent sign; any other two-character percent
//! sequence is kept as it is, and a trailing lone percent sign stands for
//! itself.  Quoted arguments are never expanded.

use vstd::prelude::*;

verus! {

pub open spec fn digit_char(d: int) -> char {
    if d == 0 {
        '0'
    } else if d == 1 {
        '1'
    } else if d == 2 {
        '2'
    } else if d == 3 {
        '3'
    } else if d == 4 {
        '4'
    } else if d == 5 {
        '5'
    } else if d == 6 {
        '6'
    } else if d == 7 {
        '7'
    } else if d == 8 {
        '8'
    } else {
        '9'
    }
}

/// The decimal digits of `n`, most significant first.
pub open spec fn decimal_digits(n: int) -> Seq<char>
    decreases n,
{
    if n < 10 {
        seq![digit_char(n)]
    } else {
        decimal_digits(n / 10) + seq![digit_char(n % 10)]
    }
}

fn digit_str(d: u32) -> (r: &'static str)
    requires
        d < 10,
    ensures
        r@ == seq![digit_char(d as int)],
{
    if d == 0 {
        proof {
            reveal_strlit("0");
            assert("0"@ =~= seq![digit_char(0)]);
        }
        "0"
    } else if d == 1 {
        proof {
            reveal_strlit("1");
            assert("1"@ =~= seq![digit_char(1)]);
        }
        "1"
    } else if d == 2 {
        proof {
            reveal_strlit("2");
            assert("2"@ =~= seq![digit_char(2)]);
        }
        "2"
    } else if d == 3 {
        proof {
            reveal_strlit("3");
            assert("3"@ =~= seq![digit_char(3)]);
        }
        "3"
    } else if d == 4 {
        proof {
            reveal_strlit("4");
            assert("4"@ =~= seq![digit_char(4)]);
        }
        "4"
    } else if d == 5 {
        proof {
            reveal_strlit("5");
            assert("5"@ =~= seq![digit_char(5)]);
        }
        "5"
    } else if d == 6 {
        proof {
            reveal_strlit("6");
            assert("6"@ =~= seq![digit_char(6)]);
        }
        "6"
    } else if d == 7 {
        proof {
            reveal_strlit("7");
            assert("7"@ =~= seq![digit_char(7)]);
        }
        "7"
    } else if d == 8 {
        proof {
            reveal_strlit("8");
            assert("8"@ =~= seq![digit_char(8)]);
        }
        "8"
    } else {
        proof {
            reveal_strlit("9");
            assert("9"@ =~= seq![digit_char(9)]);
        }
        "9"
    }
}

/// The decimal rendering of `n`.
pub fn decimal_string(n: u32) -> (r: String)
    ensures
        r@ == decimal_digits(n as int),
    decreases n,
{
    if n < 10 {
        String::from_str(digit_str(n))
    } else {
        let mut s = decimal_string(n / 10);
        s.append(digit_str(n % 10));
        s
    }
}

/// The expansion of `arg` with the three placeholder values.
pub open spec fn expand_placeholders(
    arg: Seq<char>,
    tex: Seq<char>,
    pdf: Seq<char>,
    line: Seq<char>,
) -> Seq<char>
    decreases arg.len(),
{
    if arg.len() == 0 {
        Seq::empty()
    } else if arg[0] == '%' {
        if arg.len() >= 2 {
            let rest = expand_placeholders(arg.skip(2), tex, pdf, line);
            if arg[1] == 'f' {
                tex + rest
            } else if arg[1] == 'p' {
                pdf + rest
            } else if arg[1] == 'l' {
                line + rest
            } else if arg[1] == '%' {
                seq!['%'] + rest
            } else {
                arg.take(2) + rest
            }
        } else {
            seq!['%']
        }
    } else {
        seq![arg[0]] + expand_placeholders(arg.skip(1), tex, pdf, line)
    }
}

/// A run of characters without a percent sign expands to itself.
proof fn lemma_expand_chunk(
    arg: Seq<char>,
    tex: Seq<char>,
    pdf: Seq<char>,
    line: Seq<char>,
    end: int,
)
    requires
        0 < end <= arg.len(),
        forall|j: int| 0 <= j < end ==> arg[j] != '%',
    ensures
        expand_placeholders(arg, tex, pdf, line) == arg.take(end) + expand_placeholders(
            arg.skip(end),
            tex,
            pdf,
            line,
        ),
    decreases end,
{
    if end == 1 {
        assert(arg.take(1) =~= seq![arg[0]]);
    } else {
        lemma_expand_chunk(arg.skip(1), tex, pdf, line, end - 1);
        assert(arg.skip(1).take(end - 1) =~= arg.take(end).skip(1));
        assert(arg.skip(1).skip(end - 1) =~= arg.skip(end));
        assert(seq![arg[0]] + (arg.skip(1).take(end - 1) + expand_placeholders(
            arg.skip(end),
            tex,
            pdf,
            line,
        )) =~= arg.take(end) + expand_placeholders(arg.skip(end), tex, pdf, line));
    }
}

/// The position of the first percent sign of `s`.
fn find_percent(s: &str) -> (r: Option<usize>)
    ensures
        match r {
            Some(e) => {
                &&& 0 <= e < s@.len()
                &&& s@[e as int] == '%'
                &&& forall|j: int| 0 <= j < e ==> s@[j] != '%'
            },
            None => forall|j: int| 0 <= j < s@.len() ==> s@[j] != '%',
        },
{
    let len = s.unicode_len();
    let mut i: usize = 0;
    while i < len
        invariant
            len == s@.len(),
            0 <= i <= len,
            forall|j: int| 0 <= j < i ==> s@[j] != '%',
        decreases len - i,
    {
        if s.get_char(i) == '%' {
            return Some(i);
        }
        i = i + 1;
    }
    None
}

/// Scans an argument template chunk by chunk: each step yields either a
/// plain slice of the template or the expansion of one placeholder.
pub struct PlaceHolderIterator<'a> {
    remainder: &'a str,
    tex_file: &'a str,
    pdf_file: &'a str,
    line_number: &'a str,
}

impl<'a> PlaceHolderIterator<'a> {
    pub closed spec fn remainder_view(&self) -> Seq<char> {
        self.remainder@
    }

    pub closed spec fn tex_view(&self) -> Seq<char> {
        self.tex_file@
    }

    pub closed spec fn pdf_view(&self) -> Seq<char> {
        self.pdf_file@
    }

    pub closed spec fn line_view(&self) -> Seq<char> {
        self.line_number@
    }

    pub fn new(s: &'a str, tex_file: &'a str, pdf_file: &'a str, line_number: &'a str) -> (r:
        Self)
        ensures
            r.remainder_view() == s@,
            r.tex_view() == tex_file@,
            r.pdf_view() == pdf_file@,
            r.line_view() == line_number@,
    {
        Self { remainder: s, tex_file, pdf_file, line_number }
    }

    /// Hands out everything left and leaves nothing behind.
    pub fn yield_remainder(&mut self) -> (r: Option<&'a str>)
        ensures
            r is Some && r->0@ == old(self).remainder_view(),
            final(self).remainder_view() == Seq::<char>::empty(),
            final(self).tex_view() == old(self).tex_view(),
            final(self).pdf_view() == old(self).pdf_view(),
            final(self).line_view() == old(self).line_view(),
    {
        let chunk = self.remainder;
        self.remainder = "";
        proof {
            reveal_strlit("");
            assert(""@ =~= Seq::<char>::empty());
        }
        Some(chunk)
    }

    /// Consumes one percent sequence and hands out its expansion.
    pub fn yield_placeholder(&mut self) -> (r: Option<&'a str>)
        requires
            old(self).remainder_view().len() > 0,
            old(self).remainder_view()[0] == '%',
        ensures
            r is Some,
            final(self).tex_view() == old(self).tex_view(),
            final(self).pdf_view() == old(self).pdf_view(),
            final(self).line_view() == old(self).line_view(),
            old(self).remainder_view().len() >= 2 ==> {
                let rem = old(self).remainder_view();
                &&& final(self).remainder_view() == rem.skip(2)
                &&& r->0@ == if rem[1] == 'f' {
                    old(self).tex_view()
                } else if rem[1] == 'p' {
                    old(self).pdf_view()
                } else if rem[1] == 'l' {
                    old(self).line_view()
                } else if rem[1] == '%' {
                    seq!['%']
                } else {
                    rem.take(2)
                }
            },
            old(self).remainder_view().len() < 2 ==> {
                &&& final(self).remainder_view() == Seq::<char>::empty()
                &&& r->0@ == seq!['%']
            },
    {
        let len = self.remainder.unicode_len();
        if len >= 2 {
            let placeholder = self.remainder;
            self.remainder = placeholder.substring_char(2, len);
            proof {
                assert(placeholder@.subrange(2, len as int) =~= placeholder@.skip(2));
            }
            let c = placeholder.get_char(1);
            if c == 'f' {
                Some(self.tex_file)
            } else if c == 'p' {
                Some(self.pdf_file)
            } else if c == 'l' {
                Some(self.line_number)
            } else if c == '%' {
                proof {
                    reveal_strlit("%");
                    assert("%"@ =~= seq!['%']);
                }
                Some("%")
            } else {
                let chunk = placeholder.substring_char(0, 2);
                proof {
                    assert(placeholder@.subrange(0, 2) =~= placeholder@.take(2));
                }
                Some(chunk)
            }
        } else {
            let rest = self.remainder.substring_char(1, len);
            self.remainder = rest;
            proof {
                assert(rest@ =~= Seq::<char>::empty());
                reveal_strlit("%");
                assert("%"@ =~= seq!['%']);
            }
            Some("%")
        }
    }

    /// Hands out the first `end` characters and keeps the rest.
    pub fn yield_str(&mut self, end: usize) -> (r: Option<&'a str>)
        requires
            end <= old(self).remainder_view().len(),
        ensures
            r is Some && r->0@ == old(self).remainder_view().take(end as int),
            final(self).remainder_view() == old(self).remainder_view().skip(end as int),
            final(self).tex_view() == old(self).tex_view(),
            final(self).pdf_view() == old(self).pdf_view(),
            final(self).line_view() == old(self).line_view(),
    {
        let len = self.remainder.unicode_len();
        let chunk = self.remainder.substring_char(0, end);
        self.remainder = self.remainder.substring_char(end, len);
        proof {
            assert(chunk@ =~= old(self).remainder_view().take(end as int));
            assert(self.remainder@ =~= old(self).remainder_view().skip(end as int));
        }
        Some(chunk)
    }

    fn is_done(&self) -> (r: bool)
        ensures
            r == (self.remainder_view().len() == 0),
    {
        self.remainder.is_empty()
    }

    /// One scanning step: nothing once the template is consumed, otherwise a
    /// chunk whose text, followed by the expansion of what remains, is the
    /// expansion of what the step started from.
    pub fn next(&mut self) -> (r: Option<&'a str>)
        ensures
            final(self).tex_view() == old(self).tex_view(),
            final(self).pdf_view() == old(self).pdf_view(),
            final(self).line_view() == old(self).line_view(),
            old(self).remainder_view().len() == 0 ==> r is None && final(self).remainder_view()
                == old(self).remainder_view(),
            old(self).remainder_view().len() > 0 ==> ({
                &&& r is Some
                &&& final(self).remainder_view().len() < old(self).remainder_view().len()
                &&& r->0@ + expand_placeholders(
                    final(self).remainder_view(),
                    old(self).tex_view(),
                    old(self).pdf_view(),
                    old(self).line_view(),
                ) == expand_placeholders(
                    old(self).remainder_view(),
                    old(self).tex_view(),
                    old(self).pdf_view(),
                    old(self).line_view(),
                )
            }),
    {
        if self.is_done() {
            return None;
        }
        let first = self.remainder.get_char(0);
        if first == '%' {
            let r = self.yield_placeholder();
            proof {
                let rem = old(self).remainder_view();
                if rem.len() >= 2 {
                    if rem[1] == '%' {
                        assert(r->0@ + expand_placeholders(
                            rem.skip(2),
                            old(self).tex_view(),
                            old(self).pdf_view(),
                            old(self).line_view(),
                        ) =~= expand_placeholders(
                            rem,
                            old(self).tex_view(),
                            old(self).pdf_view(),
                            old(self).line_view(),
                        ));
                    }
                } else {
                    assert(expand_placeholders(
                        rem,
                        old(self).tex_view(),
                        old(self).pdf_view(),
                        old(self).line_view(),
                    ) == seq!['%']);
                    assert(r->0@ + Seq::<char>::empty() =~= seq!['%']);
                }
            }
            r
        } else {
            match find_percent(self.remainder) {
                None => {
                    let r = self.yield_remainder();
                    proof {
                        let rem = old(self).remainder_view();
                        lemma_expand_chunk(
                            rem,
                            old(self).tex_view(),
                            old(self).pdf_view(),
                            old(self).line_view(),
                            rem.len() as int,
                        );
                        assert(rem.take(rem.len() as int) =~= rem);
                        assert(rem.skip(rem.len() as int) =~= Seq::<char>::empty());
                        assert(r->0@ + Seq::<char>::empty() =~= r->0@);
                    }
                    r
                },
                Some(end) => {
                    let r = self.yield_str(end);
                    proof {
                        let rem = old(self).remainder_view();
                        assert(end > 0) by {
                            assert(rem[0] != '%');
                        }
                        lemma_expand_chunk(
                            rem,
                            old(self).tex_view(),
                            old(self).pdf_view(),
                            old(self).line_view(),
                            end as int,
                        );
                    }
                    r
                },
            }
        }
    }
}

/// Whether an argument is quoted and therefore left alone.
pub open spec fn is_quoted(arg: Seq<char>) -> bool {
    arg.len() > 0 && (arg[0] == '"' || arg[arg.len() - 1] == '"')
}

/// Expands the placeholders of one argument template, or hands a quoted
/// argument back unchanged.
pub fn replace_placeholder(tex_file: &str, pdf_file: &str, line_number: u32, argument: &str) -> (r:
    Option<String>)
    requires
        line_number < 0xffff_ffff,
    ensures
        r is Some,
        is_quoted(argument@) ==> r->0@ == argument@,
        !is_quoted(argument@) ==> r->0@ == expand_placeholders(
            argument@,
            tex_file@,
            pdf_file@,
            decimal_digits(line_number + 1),
        ),
{
    let len = argument.unicode_len();
    let quoted = if len == 0 {
        false
    } else {
        argument.get_char(0) == '"' || argument.get_char(len - 1) == '"'
    };
    if quoted {
        return Some(argument.to_owned());
    }
    let line = decimal_string(line_number + 1);
    let mut it = PlaceHolderIterator::new(argument, tex_file, pdf_file, line.as_str());
    let mut result = String::new();
    let ghost goal = expand_placeholders(
        argument@,
        tex_file@,
        pdf_file@,
        decimal_digits(line_number + 1),
    );
    proof {
        assert(Seq::<char>::empty() + goal =~= goal);
    }
    let mut done = it.is_done();
    while !done
        invariant
            done == (it.remainder_view().len() == 0),
            it.tex_view() == tex_file@,
            it.pdf_view() == pdf_file@,
            it.line_view() == decimal_digits(line_number + 1),
            goal == expand_placeholders(
                argument@,
                tex_file@,
                pdf_file@,
                decimal_digits(line_number + 1),
            ),
            result@ + expand_placeholders(
                it.remainder_view(),
                tex_file@,
                pdf_file@,
                decimal_digits(line_number + 1),
            ) == goal,
        decreases it.remainder_view().len(),
    {
        match it.next() {
            Some(chunk) => {
                result.append(chunk);
            },
            None => {},
        }
        done = it.is_done();
    }
    proof {
        assert(expand_placeholders(
            it.remainder_view(),
            tex_file@,
            pdf_file@,
            decimal_digits(line_number + 1),
        ) == Seq::<char>::empty());
        assert(result@ + Seq::<char>::empty() =~= result@);
    }
    Some(result)
}

} // verus!
