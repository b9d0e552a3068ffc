//! The event renderer: turns one parsed event into a fragment of
//! terminal-ready text, given and updating a small piece of persistent
//! cross-event state (whether any output has been produced yet), then
//! substitutes temporary-directory prefixes with a stable placeholder.

use vstd::prelude::*;
use vstd::string::StrSliceExecFns;
use vstd::string::StringExecFns;

use crate::event::Event;
use crate::event::ModelUsage;
use crate::event::SuccessPayload;
use crate::event::ContentBlock;
use crate::event::ToolInput;
use crate::redact::redact;
use crate::redact::spec_redact;
use crate::units::annualized_rate;
use crate::units::format_dollars;
use crate::units::format_elapsed;
use crate::units::format_tokens;
use crate::units::spec_annualized;
use crate::units::spec_format_dollars;
use crate::units::spec_format_elapsed;
use crate::units::spec_format_tokens;

verus! {

/// Character-wise string equality.
pub(crate) fn str_eq(a: &str, b: &str) -> (r: bool)
    ensures
        r == (a@ == b@),
{
    let n = a.unicode_len();
    let m = b.unicode_len();
    if n != m {
        proof {
            assert(a@ != b@);
        }
        return false;
    }
    let mut i: usize = 0;
    while i < n
        invariant
            n == a@.len() <= usize::MAX,
            n == b@.len(),
            0 <= i <= n,
            forall|k: int| 0 <= k < i ==> a@[k] == b@[k],
        decreases n - i,
    {
        if a.get_char(i) != b.get_char(i) {
            return false;
        }
        i += 1;
    }
    proof {
        assert(a@ =~= b@);
    }
    true
}

/// `s` wrapped in the ANSI dim escape and the style reset.
pub open spec fn dim_wrapped(s: Seq<char>) -> Seq<char> {
    seq!['\u{1b}', '[', '2', 'm'] + s + seq!['\u{1b}', '[', '0', 'm']
}

/// `s` wrapped in the ANSI bold escape and the style reset.
pub open spec fn bold_wrapped(s: Seq<char>) -> Seq<char> {
    seq!['\u{1b}', '[', '1', 'm'] + s + seq!['\u{1b}', '[', '0', 'm']
}

/// `s` wrapped in the ANSI green foreground escape and the foreground
/// reset.
pub open spec fn green_wrapped(s: Seq<char>) -> Seq<char> {
    seq!['\u{1b}', '[', '3', '2', 'm'] + s + seq!['\u{1b}', '[', '3', '9', 'm']
}

/// Relies on owo_colors's `dimmed`, whose `Display` writes `ESC[2m`, the
/// text, then `ESC[0m`.
#[verifier::external_body]
fn dim(s: &str) -> (r: String)
    ensures
        r@ == dim_wrapped(s@),
{
    format!("{}", owo_colors::OwoColorize::dimmed(&s))
}

/// Relies on owo_colors's `bold`, whose `Display` writes `ESC[1m`, the
/// text, then `ESC[0m`.
#[verifier::external_body]
fn bold(s: &str) -> (r: String)
    ensures
        r@ == bold_wrapped(s@),
{
    format!("{}", owo_colors::OwoColorize::bold(&s))
}

/// Relies on owo_colors's `green`, whose `Display` writes `ESC[32m`, the
/// text, then `ESC[39m`.
#[verifier::external_body]
fn green(s: &str) -> (r: String)
    ensures
        r@ == green_wrapped(s@),
{
    format!("{}", owo_colors::OwoColorize::green(&s))
}

/// Relies on termimad's `term_text` to translate markdown emphasis to
/// terminal styling. Its output depends on the terminal the process runs
/// under, so nothing is assumed of it.
#[verifier::external_body]
fn markdown_terminal(s: &str) -> (r: String) {
    termimad::term_text(s).to_string()
}

/// How many newline characters `s` begins with.
pub open spec fn leading_newline_count(s: Seq<char>) -> nat
    decreases s.len(),
{
    if s.len() > 0 && s[0] == '\n' {
        (1 + leading_newline_count(s.skip(1))) as nat
    } else {
        0
    }
}

/// `s` as the renderer sees it: untouched once output has occurred,
/// otherwise with exactly its leading newline characters removed.
pub open spec fn strip_spec(s: Seq<char>, has_output: bool) -> Seq<char> {
    if has_output {
        s
    } else {
        s.skip(leading_newline_count(s) as int)
    }
}

/// Law: the leading-newline count marks exactly the leading newline
/// characters — every character before it is a newline, and the character
/// at it (if any) is not — so stripping removes exactly those characters
/// and no others.
pub proof fn lemma_strip_exact(s: Seq<char>)
    ensures
        leading_newline_count(s) <= s.len(),
        forall|k: int| 0 <= k < leading_newline_count(s) ==> s[k] == '\n',
        leading_newline_count(s) < s.len() ==> s[leading_newline_count(s) as int] != '\n',
    decreases s.len(),
{
    if s.len() > 0 && s[0] == '\n' {
        lemma_strip_exact(s.skip(1));
        assert forall|k: int| 0 <= k < leading_newline_count(s) implies s[k] == '\n' by {
            if k >= 1 {
                assert(s.skip(1)[k - 1] == s[k]);
            }
        }
    }
}

proof fn lemma_leading_count_is(s: Seq<char>, i: int)
    requires
        0 <= i <= s.len(),
        forall|k: int| 0 <= k < i ==> s[k] == '\n',
        i < s.len() ==> s[i] != '\n',
    ensures
        leading_newline_count(s) == i,
    decreases i,
{
    if i == 0 {
    } else {
        assert(s[0] == '\n');
        assert(forall|k: int| 0 <= k < i - 1 ==> #[trigger] s.skip(1)[k] == s[k + 1]);
        lemma_leading_count_is(s.skip(1), i - 1);
    }
}

/// Removes exactly the leading newline characters from `text`.
pub fn strip_leading_newlines(text: &str) -> (r: String)
    ensures
        r@ == text@.skip(leading_newline_count(text@) as int),
{
    let n = text.unicode_len();
    let mut i: usize = 0;
    while i < n && text.get_char(i) == '\n'
        invariant
            n == text@.len() <= usize::MAX,
            0 <= i <= n,
            forall|k: int| 0 <= k < i ==> text@[k] == '\n',
        decreases n - i,
    {
        i += 1;
    }
    proof {
        lemma_leading_count_is(text@, i as int);
    }
    let rest = text.substring_char(i, n);
    rest.to_owned()
}

/// Whether the tool name is one of the fixed set associated with file
/// mutation, whose invocation lines carry the file path.
pub open spec fn is_file_tool(name: Seq<char>) -> bool {
    name == "Read"@ || name == "Write"@ || name == "Edit"@
}

/// The rendered fragment for a tool invocation: one dimmed line naming the
/// tool, with the input's file path (or a placeholder if absent) when the
/// tool is file-associated.
pub open spec fn spec_tool_fragment(name: String, input: ToolInput) -> Seq<char> {
    let line = if is_file_tool(name@) {
        "> "@ + name@ + " "@ + (match input.file_path {
            Option::Some(p) => p@,
            Option::None => "?"@,
        })
    } else {
        "> "@ + name@
    };
    dim_wrapped(line) + "\n"@
}

/// Renders a tool invocation as one dimmed line.
fn render_tool_use(name: &String, input: &ToolInput) -> (r: String)
    ensures
        r@ == spec_tool_fragment(*name, *input),
{
    let mut line = String::from_str("> ");
    line.append(name.as_str());
    if str_eq(name.as_str(), "Read") || str_eq(name.as_str(), "Write") || str_eq(
        name.as_str(),
        "Edit",
    ) {
        line.append(" ");
        match &input.file_path {
            Option::Some(p) => line.append(p.as_str()),
            Option::None => line.append("?"),
        }
    }
    let mut out = dim(line.as_str());
    out.append("\n");
    proof {
        assert(out@ =~= spec_tool_fragment(*name, *input));
    }
    out
}

/// The text inside the dimmed per-model usage line: a newline, indentation,
/// the model name, and its token counts and cost.
pub open spec fn spec_model_line_inner(name: String, u: ModelUsage) -> Seq<char> {
    "\n    "@ + name@ + ": "@ + spec_format_tokens(u.input_tokens as nat) + " input, "@
        + spec_format_tokens(u.output_tokens as nat) + " output, "@ + spec_format_tokens(
        u.cache_read_input_tokens as nat,
    ) + " cache read, "@ + spec_format_tokens(u.cache_creation_input_tokens as nat)
        + " cache write ("@ + spec_format_dollars(u.cost_usd as nat) + ")"@
}

/// The rendered fragment for one model's usage: its line, dimmed.
pub open spec fn spec_model_line(name: String, u: ModelUsage) -> Seq<char> {
    dim_wrapped(spec_model_line_inner(name, u))
}

/// The rendered fragments for every model's usage, in arrival order.
pub open spec fn spec_model_lines(ms: Seq<(String, ModelUsage)>) -> Seq<char>
    decreases ms.len(),
{
    if ms.len() == 0 {
        Seq::<char>::empty()
    } else {
        spec_model_line(ms[0].0, ms[0].1) + spec_model_lines(ms.skip(1))
    }
}

/// The headline of a result summary: total elapsed time, API-only elapsed
/// time, total cost, and the derived annualized rate.
pub open spec fn spec_headline(s: SuccessPayload) -> Seq<char> {
    "Finished in "@ + spec_format_elapsed(s.duration_ms as nat) + " ("@ + spec_format_elapsed(
        s.api_duration_ms as nat,
    ) + " API time). Total cost: "@ + spec_format_dollars(s.total_cost_usd as nat) + " (Salary: "@
        + spec_format_dollars(spec_annualized(s.total_cost_usd as nat, s.duration_ms as nat))
        + "/yr)"@
}

/// The rendered fragment for a successful result event: the bold green
/// headline, then (when any model was used) a dimmed usage section with
/// one line per model, then a final newline.
pub open spec fn spec_success_fragment(s: SuccessPayload) -> Seq<char> {
    bold_wrapped(green_wrapped(spec_headline(s))) + (if s.model_usage@.len() > 0 {
        dim_wrapped("\nUsage by model:"@) + spec_model_lines(s.model_usage@)
    } else {
        Seq::<char>::empty()
    }) + "\n"@
}

/// Renders a successful result event as its multi-line summary.
fn render_success(s: &SuccessPayload) -> (r: String)
    ensures
        r@ == spec_success_fragment(*s),
{
    let mut head = String::from_str("Finished in ");
    let e1 = format_elapsed(s.duration_ms);
    head.append(e1.as_str());
    head.append(" (");
    let e2 = format_elapsed(s.api_duration_ms);
    head.append(e2.as_str());
    head.append(" API time). Total cost: ");
    let c = format_dollars(s.total_cost_usd);
    head.append(c.as_str());
    head.append(" (Salary: ");
    let a = annualized_rate(s.total_cost_usd, s.duration_ms);
    let ad = format_dollars(a);
    head.append(ad.as_str());
    head.append("/yr)");
    proof {
        assert(head@ =~= spec_headline(*s));
    }
    let g = green(head.as_str());
    let mut out = bold(g.as_str());
    if s.model_usage.len() > 0 {
        let u = dim("\nUsage by model:");
        out.append(u.as_str());
        let ghost mlist = s.model_usage@;
        let mut lines = String::new();
        let mut i: usize = 0;
        proof {
            assert(mlist.skip(0) =~= mlist);
            assert(Seq::<char>::empty() + spec_model_lines(mlist) =~= spec_model_lines(mlist));
        }
        while i < s.model_usage.len()
            invariant
                mlist == s.model_usage@,
                0 <= i <= mlist.len(),
                spec_model_lines(mlist) == lines@ + spec_model_lines(mlist.skip(i as int)),
            decreases mlist.len() - i,
        {
            let pair = &s.model_usage[i];
            let mut line = String::from_str("\n    ");
            line.append(pair.0.as_str());
            line.append(": ");
            let t = format_tokens(pair.1.input_tokens);
            line.append(t.as_str());
            line.append(" input, ");
            let t = format_tokens(pair.1.output_tokens);
            line.append(t.as_str());
            line.append(" output, ");
            let t = format_tokens(pair.1.cache_read_input_tokens);
            line.append(t.as_str());
            line.append(" cache read, ");
            let t = format_tokens(pair.1.cache_creation_input_tokens);
            line.append(t.as_str());
            line.append(" cache write (");
            let d = format_dollars(pair.1.cost_usd);
            line.append(d.as_str());
            line.append(")");
            let styled = dim(line.as_str());
            let ghost prev = lines@;
            lines.append(styled.as_str());
            proof {
                assert(line@ =~= spec_model_line_inner(mlist[i as int].0, mlist[i as int].1));
                assert(mlist.skip(i as int)[0] == mlist[i as int]);
                assert(mlist.skip(i as int).skip(1) =~= mlist.skip(i as int + 1));
                let rest = spec_model_lines(mlist.skip(i as int + 1));
                assert(prev + (styled@ + rest) =~= (prev + styled@) + rest);
            }
            i += 1;
        }
        proof {
            assert(mlist.skip(mlist.len() as int) =~= Seq::<(String, ModelUsage)>::empty());
            assert(lines@ + Seq::<char>::empty() =~= lines@);
        }
        out.append(lines.as_str());
    }
    out.append("\n");
    proof {
        assert(out@ =~= spec_success_fragment(*s));
    }
    out
}

/// The output flag after rendering one content block with the flag at `h`:
/// a text block raises it exactly when its (possibly stripped) text is
/// non-empty, a tool invocation always raises it, and an unknown block
/// leaves it unchanged.
pub open spec fn spec_block_has_output(b: ContentBlock, h: bool) -> bool {
    match b {
        ContentBlock::Text { text } => h || strip_spec(text@, h).len() > 0,
        ContentBlock::ToolUse { .. } => true,
        ContentBlock::Unknown => h,
    }
}

/// The output flag after rendering a sequence of content blocks in order,
/// starting from `h`.
pub open spec fn spec_blocks_has_output(bs: Seq<ContentBlock>, h: bool) -> bool
    decreases bs.len(),
{
    if bs.len() == 0 {
        h
    } else {
        spec_blocks_has_output(bs.skip(1), spec_block_has_output(bs[0], h))
    }
}

/// The rendered text for a sequence of content blocks, starting with the
/// output flag at `h`. Each text block that renders non-empty goes through
/// the markdown terminal renderer, whose output this spec cannot pin down:
/// `frags` stands for those outputs, consumed one per rendered text block.
/// Everything else — which blocks render, the stripping decision, the tool
/// lines, the ordering — is exact.
pub open spec fn spec_render_blocks(bs: Seq<ContentBlock>, h: bool, frags: Seq<Seq<char>>) -> Seq<
    char,
>
    decreases bs.len(),
{
    if bs.len() == 0 {
        Seq::<char>::empty()
    } else {
        match bs[0] {
            ContentBlock::Text { text } => {
                if strip_spec(text@, h).len() == 0 {
                    spec_render_blocks(bs.skip(1), h, frags)
                } else {
                    (if frags.len() > 0 {
                        frags[0]
                    } else {
                        Seq::<char>::empty()
                    }) + spec_render_blocks(bs.skip(1), true, frags.skip(1))
                }
            },
            ContentBlock::ToolUse { name, input } => spec_tool_fragment(name, input)
                + spec_render_blocks(bs.skip(1), true, frags),
            ContentBlock::Unknown => spec_render_blocks(bs.skip(1), h, frags),
        }
    }
}

/// Whether rendering the blocks from the flag at `h` sends nothing
/// through the markdown renderer: every text block on the way is empty
/// once stripped.
pub open spec fn spec_renders_no_text(bs: Seq<ContentBlock>, h: bool) -> bool
    decreases bs.len(),
{
    if bs.len() == 0 {
        true
    } else {
        match bs[0] {
            ContentBlock::Text { text } => strip_spec(text@, h).len() == 0 && spec_renders_no_text(
                bs.skip(1),
                h,
            ),
            ContentBlock::ToolUse { .. } => spec_renders_no_text(bs.skip(1), true),
            ContentBlock::Unknown => spec_renders_no_text(bs.skip(1), h),
        }
    }
}

/// Law: when no text block renders, the rendered text does not depend on
/// the markdown renderer's outputs at all — the rendering of tool-use
/// lines is exact.
pub proof fn lemma_render_no_text_exact(
    bs: Seq<ContentBlock>,
    h: bool,
    frags1: Seq<Seq<char>>,
    frags2: Seq<Seq<char>>,
)
    requires
        spec_renders_no_text(bs, h),
    ensures
        spec_render_blocks(bs, h, frags1) == spec_render_blocks(bs, h, frags2),
    decreases bs.len(),
{
    if bs.len() > 0 {
        match bs[0] {
            ContentBlock::Text { text } => {
                lemma_render_no_text_exact(bs.skip(1), h, frags1, frags2);
            },
            ContentBlock::ToolUse { .. } => {
                lemma_render_no_text_exact(bs.skip(1), true, frags1, frags2);
            },
            ContentBlock::Unknown => {
                lemma_render_no_text_exact(bs.skip(1), h, frags1, frags2);
            },
        }
    }
}

/// Law: the cross-event output flag never resets — once output has
/// occurred, rendering any further blocks leaves it set, so later text
/// blocks are never stripped.
pub proof fn lemma_has_output_monotone(bs: Seq<ContentBlock>)
    ensures
        spec_blocks_has_output(bs, true),
    decreases bs.len(),
{
    if bs.len() > 0 {
        lemma_has_output_monotone(bs.skip(1));
    }
}

/// Renders the blocks from index `i` on, updating the output flag.
fn render_blocks_from(has_output: &mut bool, blocks: &Vec<ContentBlock>, i: usize) -> (r: String)
    requires
        i <= blocks@.len(),
    ensures
        *final(has_output) == spec_blocks_has_output(blocks@.skip(i as int), *old(has_output)),
        exists|frags: Seq<Seq<char>>|
            r@ == spec_render_blocks(blocks@.skip(i as int), *old(has_output), frags),
    decreases blocks@.len() - i,
{
    let ghost h0 = *has_output;
    if i == blocks.len() {
        proof {
            assert(blocks@.skip(i as int) =~= Seq::<ContentBlock>::empty());
            let w = Seq::<Seq<char>>::empty();
            assert(spec_render_blocks(blocks@.skip(i as int), h0, w) == Seq::<char>::empty());
        }
        String::new()
    } else {
        let ghost tail = blocks@.skip(i as int);
        proof {
            assert(tail[0] == blocks@[i as int]);
            assert(tail.skip(1) =~= blocks@.skip(i as int + 1));
        }
        match &blocks[i] {
            ContentBlock::Text { text } => {
                let stripped: String = if *has_output {
                    text.clone()
                } else {
                    strip_leading_newlines(text.as_str())
                };
                proof {
                    assert(stripped@ == strip_spec(text@, h0));
                }
                if stripped.as_str().unicode_len() == 0 {
                    let rest = render_blocks_from(has_output, blocks, i + 1);
                    proof {
                        let frags = choose|f: Seq<Seq<char>>|
                            rest@ == #[trigger] spec_render_blocks(
                                blocks@.skip(i as int + 1),
                                h0,
                                f,
                            );
                        assert(rest@ == spec_render_blocks(tail, h0, frags));
                    }
                    rest
                } else {
                    let frag = markdown_terminal(stripped.as_str());
                    let ghost fv = frag@;
                    *has_output = true;
                    let rest = render_blocks_from(has_output, blocks, i + 1);
                    let mut out = frag;
                    out.append(rest.as_str());
                    proof {
                        let frest = choose|f: Seq<Seq<char>>|
                            rest@ == #[trigger] spec_render_blocks(
                                blocks@.skip(i as int + 1),
                                true,
                                f,
                            );
                        let frags = seq![fv] + frest;
                        assert(frags[0] == fv);
                        assert(frags.skip(1) =~= frest);
                        assert(out@ == spec_render_blocks(tail, h0, frags));
                    }
                    out
                }
            },
            ContentBlock::ToolUse { name, input } => {
                let frag = render_tool_use(name, input);
                *has_output = true;
                let rest = render_blocks_from(has_output, blocks, i + 1);
                let mut out = frag;
                out.append(rest.as_str());
                proof {
                    let frags = choose|f: Seq<Seq<char>>|
                        rest@ == #[trigger] spec_render_blocks(blocks@.skip(i as int + 1), true, f);
                    assert(out@ == spec_render_blocks(tail, h0, frags));
                }
                out
            },
            ContentBlock::Unknown => {
                let rest = render_blocks_from(has_output, blocks, i + 1);
                proof {
                    let frags = choose|f: Seq<Seq<char>>|
                        rest@ == #[trigger] spec_render_blocks(blocks@.skip(i as int + 1), h0, f);
                    assert(rest@ == spec_render_blocks(tail, h0, frags));
                }
                rest
            },
        }
    }
}

/// The temporary-directory prefix table built from the raw OS path and, if
/// it resolved and differs, its canonicalized form — ordered longest first
/// so a longer prefix is never partially shadowed by a shorter one.
pub open spec fn spec_temp_dir_table(raw: Seq<char>, canonical: Option<Seq<char>>) -> Seq<
    Seq<char>,
> {
    match canonical {
        Option::None => seq![raw],
        Option::Some(c) => {
            if c == raw {
                seq![c]
            } else if c.len() >= raw.len() {
                seq![c, raw]
            } else {
                seq![raw, c]
            }
        },
    }
}

/// Renders parsed events incrementally, carrying the cross-event output
/// flag and substituting every temporary-directory prefix in the rendered
/// text with `$TMPDIR`.
pub struct EventWriter {
    /// Temporary-directory prefixes to replace, longest first.
    pub temp_dirs: Vec<String>,
    /// Whether any output has been rendered yet; until it is, leading
    /// newlines of text blocks are stripped.
    pub has_output: bool,
}

impl EventWriter {
    /// Builds a writer from the OS temporary-directory path and, when it
    /// resolved, its canonicalized form. The prefix table holds both (one,
    /// if they agree), longest first; no output has been rendered yet.
    pub fn new(raw: String, canonical: Option<String>) -> (w: EventWriter)
        ensures
            !w.has_output,
            crate::redact::dir_views(w.temp_dirs@) == spec_temp_dir_table(
                raw@,
                match canonical {
                    Option::Some(c) => Option::Some(c@),
                    Option::None => Option::None,
                },
            ),
    {
        let mut temp_dirs: Vec<String> = Vec::new();
        match canonical {
            Option::Some(c) => {
                if str_eq(c.as_str(), raw.as_str()) {
                    temp_dirs.push(c);
                } else if c.as_str().unicode_len() >= raw.as_str().unicode_len() {
                    temp_dirs.push(c);
                    temp_dirs.push(raw);
                } else {
                    temp_dirs.push(raw);
                    temp_dirs.push(c);
                }
            },
            Option::None => {
                temp_dirs.push(raw);
            },
        }
        let w = EventWriter { temp_dirs, has_output: false };
        proof {
            assert(crate::redact::dir_views(w.temp_dirs@) =~= spec_temp_dir_table(
                raw@,
                match canonical {
                    Option::Some(c) => Option::Some(c@),
                    Option::None => Option::None,
                },
            ));
        }
        w
    }

    /// Renders one event as a fragment of terminal-ready text, redacted.
    /// Assistant events render their blocks in order (text through the
    /// markdown renderer, whose output is not pinned down — the existential
    /// fragments stand for it); result events render the exact summary;
    /// unknown events render nothing. The output flag advances exactly as
    /// the block and event rules say.
    pub fn display(&mut self, event: &Event) -> (r: String)
        ensures
            final(self).temp_dirs == old(self).temp_dirs,
            (match *event {
                Event::Assistant { message } => {
                    &&& final(self).has_output == spec_blocks_has_output(
                        message.content@,
                        old(self).has_output,
                    )
                    &&& exists|frags: Seq<Seq<char>>|
                        r@ == spec_redact(
                            spec_render_blocks(message.content@, old(self).has_output, frags),
                            crate::redact::dir_views(old(self).temp_dirs@),
                            "$TMPDIR"@,
                        )
                },
                Event::Result { result } => {
                    &&& final(self).has_output
                    &&& r@ == spec_redact(
                        spec_success_fragment(result),
                        crate::redact::dir_views(old(self).temp_dirs@),
                        "$TMPDIR"@,
                    )
                },
                Event::Unknown => {
                    &&& final(self).has_output == old(self).has_output
                    &&& r@ == Seq::<char>::empty()
                },
            }),
    {
        match event {
            Event::Assistant { message } => {
                let mut h = self.has_output;
                let ghost h0 = h;
                let raw = render_blocks_from(&mut h, &message.content, 0);
                self.has_output = h;
                let red = redact(raw.as_str(), &self.temp_dirs, "$TMPDIR");
                proof {
                    assert(message.content@.skip(0) =~= message.content@);
                    let frags = choose|f: Seq<Seq<char>>|
                        raw@ == #[trigger] spec_render_blocks(message.content@.skip(0), h0, f);
                    assert(raw@ == spec_render_blocks(message.content@, h0, frags));
                }
                red
            },
            Event::Result { result } => {
                let raw = render_success(result);
                self.has_output = true;
                redact(raw.as_str(), &self.temp_dirs, "$TMPDIR")
            },
            Event::Unknown => String::new(),
        }
    }
}

} // verus!
