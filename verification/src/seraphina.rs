//! The fuzz runner's configurations and its rewriting of disassembled
//! programs, which renames the exported memory to `memory`.

use vstd::prelude::*;
use crate::wasm::costs::UniformCost;
use crate::stylus_cli::{StylusConfig, PricingParams, DebugParams};
use crate::polyglot::execute::char_vec;

verus! {

/// Turns on the debug host functions and the operator counts.
pub fn add_debug_params(config: &mut StylusConfig)
    ensures
        final(config).debug == (DebugParams { debug_funcs: true, count_ops: true }),
        final(config).costs == old(config).costs,
        final(config).start_gas == old(config).start_gas,
        final(config).pricing == old(config).pricing,
{
    config.debug.debug_funcs = true;
    config.debug.count_ops = true;
}

/// A configuration where every operator costs 1: a million gas, a WASM gas
/// price of 10000, a host I/O cost of 100, and the debugging aids on.
pub fn uniform_cost_config() -> (res: StylusConfig)
    ensures
        res == (StylusConfig {
            costs: UniformCost { cost: 1 },
            start_gas: 1_000_000,
            pricing: PricingParams { wasm_gas_price: 100_00, hostio_cost: 100 },
            debug: DebugParams { debug_funcs: true, count_ops: true },
        }),
{
    let mut config = StylusConfig::default();
    add_debug_params(&mut config);
    config.start_gas = 1_000_000;
    config.pricing.wasm_gas_price = 100_00;
    config.pricing.hostio_cost = 100;
    config.costs = UniformCost { cost: 1 };
    config
}

/// The configuration a fuzzed program runs under: every operator costs 1,
/// the gas limit, a WASM gas price of 1, and the debugging aids only when
/// operators are counted.
pub fn runner_config(enable_counter: bool, gas_limit: u64) -> (res: StylusConfig)
    ensures
        res.costs == (UniformCost { cost: 1 }),
        res.start_gas == gas_limit,
        res.pricing == (PricingParams { wasm_gas_price: 1, hostio_cost: 0 }),
        res.debug == (DebugParams { debug_funcs: enable_counter, count_ops: enable_counter }),
{
    let mut config = StylusConfig::default();
    if enable_counter {
        add_debug_params(&mut config);
    }
    config.costs = UniformCost { cost: 1 };
    config.start_gas = gas_limit;
    config.pricing.wasm_gas_price = 1;
    config
}

/// Whether `text` starts with `prefix`.
pub open spec fn starts_with(text: Seq<char>, prefix: Seq<char>) -> bool {
    prefix.len() <= text.len() && text.subrange(0, prefix.len() as int) == prefix
}

/// Whether `text` starts with `prefix` (as `str::starts_with` does with a string pattern).
fn str_starts_with(text: &str, prefix: &str) -> (res: bool)
    ensures
        res == starts_with(text@, prefix@),
{
    let chars = char_vec(text);
    let wanted = char_vec(prefix);
    if wanted.len() > chars.len() {
        return false;
    }
    let mut j: usize = 0;
    while j < wanted.len()
        invariant
            chars@ == text@,
            wanted@ == prefix@,
            j <= prefix@.len() <= text@.len(),
            forall|k: int| 0 <= k < j ==> text@[k] == prefix@[k],
        decreases prefix@.len() - j,
    {
        if chars[j] != wanted[j] {
            proof {
                assert(text@.subrange(0, prefix@.len() as int)[j as int] != prefix@[j as int]);
            }
            return false;
        }
        j = j + 1;
    }
    proof {
        assert(text@.subrange(0, prefix@.len() as int) =~= prefix@);
    }
    true
}

/// The text `regex` makes of `text` by replacing the leftmost match of
/// `pattern` with `replacement`; `None` where the pattern does not compile.
pub uninterp spec fn regex_replaced(pattern: Seq<char>, text: Seq<char>, replacement: Seq<char>) -> Option<Seq<char>>;

/// `regex::Regex::new(pattern)`, then `replace` of its leftmost match in
/// `text`: the replaced text, or `None` where the pattern does not compile.
#[verifier::external_body]
fn regex_replace(pattern: &str, text: &str, replacement: &str) -> (res: Option<String>)
    ensures
        res is Some <==> regex_replaced(pattern@, text@, replacement@) is Some,
        res matches Some(r) ==> regex_replaced(pattern@, text@, replacement@) == Some(r@),
{
    match regex::Regex::new(pattern) {
        Ok(re) => Some(re.replace(text, replacement).to_string()),
        Err(_) => None,
    }
}

/// The start of the line that exports a module's memory.
pub open spec fn memory_line_prefix() -> Seq<char> {
    "(memory (;0;) (export \""@
}

/// The pattern of a quoted name.
pub open spec fn quoted_pattern() -> Seq<char> {
    "\"[^\"]+\""@
}

/// Renames the memory a line exports to `memory`: its first quoted name is
/// replaced. `None` where the name's pattern fails to compile.
pub fn rewrite_memory_line(line: String) -> (res: Option<String>)
    requires
        starts_with(line@, memory_line_prefix()),
    ensures
        res is Some <==> regex_replaced(quoted_pattern(), line@, "\"memory\""@) is Some,
        res matches Some(r) ==> regex_replaced(quoted_pattern(), line@, "\"memory\""@) == Some(r@),
{
    regex_replace("\"[^\"]+\"", line.as_str(), "\"memory\"")
}

/// The text cut at every `\n`: one more piece than there are newlines.
pub open spec fn newline_pieces(text: Seq<char>) -> Seq<Seq<char>>
    decreases text.len(),
{
    if text.len() == 0 {
        seq![Seq::empty()]
    } else {
        let before = newline_pieces(text.drop_last());
        if text.last() == '\n' {
            before.push(Seq::empty())
        } else {
            before.update(before.len() - 1, before.last().push(text.last()))
        }
    }
}

/// A piece that ended at a `\n`, without the `\r` of a `\r\n` ending.
pub open spec fn without_cr(piece: Seq<char>) -> Seq<char> {
    if piece.len() > 0 && piece.last() == '\r' {
        piece.drop_last()
    } else {
        piece
    }
}

/// The lines of a text, as `str::lines` splits it: at each `\n` or `\r\n`,
/// without the line endings; a final line ending adds no empty line, and a
/// `\r` at the very end stays in the last line.
pub open spec fn text_lines(text: Seq<char>) -> Seq<Seq<char>> {
    let pieces = newline_pieces(text);
    let ended = pieces.drop_last().map_values(|piece: Seq<char>| without_cr(piece));
    if pieces.last().len() == 0 {
        ended
    } else {
        ended.push(pieces.last())
    }
}

/// `String::push`: the string with the character added at its end.
#[verifier::external_body]
fn string_push(text: &mut String, c: char)
    ensures
        final(text)@ == old(text)@.push(c),
{
    text.push(c);
}

/// The text's lines, without their line endings (as `str::lines` gives them).
fn str_lines(text: &str) -> (res: Vec<String>)
    ensures
        res@.len() == text_lines(text@).len(),
        forall|i: int| 0 <= i < res@.len() ==> #[trigger] res@[i]@ == text_lines(text@)[i],
{
    let chars = crate::polyglot::execute::char_vec(text);
    let mut lines: Vec<String> = Vec::new();
    let mut current = String::new();
    let mut pending_cr = false;
    let mut i: usize = 0;
    while i < chars.len()
        invariant
            chars@ == text@,
            i <= chars@.len(),
            lines@.len() + 1 == newline_pieces(text@.take(i as int)).len(),
            forall|k: int| 0 <= k < lines@.len() ==> #[trigger] lines@[k]@
                == without_cr(newline_pieces(text@.take(i as int))[k]),
            newline_pieces(text@.take(i as int)).last()
                == if pending_cr { current@.push('\r') } else { current@ },
            !pending_cr ==> (current@.len() == 0 || current@.last() != '\r'),
        decreases chars@.len() - i,
    {
        let c = chars[i];
        let ghost before = newline_pieces(text@.take(i as int));
        proof {
            assert(text@.take(i + 1).drop_last() =~= text@.take(i as int));
            assert(text@.take(i + 1).last() == c);
        }
        if c == '\n' {
            let line = current;
            lines.push(line);
            current = String::new();
            pending_cr = false;
            proof {
                let after = newline_pieces(text@.take(i + 1));
                assert(after == before.push(Seq::empty()));
                assert forall|k: int| 0 <= k < lines@.len() implies #[trigger] lines@[k]@
                    == without_cr(after[k]) by {
                    if k == lines@.len() - 1 {
                        assert(after[k] == before.last());
                    } else {
                        assert(after[k] == before[k]);
                    }
                }
            }
        } else {
            if pending_cr {
                string_push(&mut current, '\r');
            }
            if c == '\r' {
                pending_cr = true;
            } else {
                string_push(&mut current, c);
                pending_cr = false;
            }
            proof {
                let after = newline_pieces(text@.take(i + 1));
                assert(after == before.update(before.len() - 1, before.last().push(c)));
                assert forall|k: int| 0 <= k < lines@.len() implies #[trigger] lines@[k]@
                    == without_cr(after[k]) by {
                    assert(after[k] == before[k]);
                }
            }
        }
        i = i + 1;
    }
    proof {
        assert(text@.take(chars@.len() as int) =~= text@);
    }
    let ghost pieces = newline_pieces(text@);
    if pending_cr {
        string_push(&mut current, '\r');
    }
    let ghost ended = pieces.drop_last().map_values(|piece: Seq<char>| without_cr(piece));
    proof {
        assert(lines@.len() == ended.len());
        assert forall|k: int| 0 <= k < lines@.len() implies #[trigger] lines@[k]@ == ended[k] by {}
    }
    if !current.as_str().is_empty() {
        lines.push(current);
    }
    lines
}

/// Whether a character is whitespace in Unicode's sense (the `White_Space`
/// property, which `str::trim` goes by).
pub open spec fn is_white_space(c: char) -> bool {
    let n = c as int;
    ||| 0x09 <= n <= 0x0D
    ||| n == 0x20
    ||| n == 0x85
    ||| n == 0xA0
    ||| n == 0x1680
    ||| 0x2000 <= n <= 0x200A
    ||| n == 0x2028
    ||| n == 0x2029
    ||| n == 0x202F
    ||| n == 0x205F
    ||| n == 0x3000
}

/// The text without its leading whitespace.
pub open spec fn trim_start(text: Seq<char>) -> Seq<char>
    decreases text.len(),
{
    if text.len() > 0 && is_white_space(text[0]) {
        trim_start(text.drop_first())
    } else {
        text
    }
}

/// The text without its trailing whitespace.
pub open spec fn trim_end(text: Seq<char>) -> Seq<char>
    decreases text.len(),
{
    if text.len() > 0 && is_white_space(text.last()) {
        trim_end(text.drop_last())
    } else {
        text
    }
}

/// A text without its leading and trailing whitespace, as `str::trim` cuts it.
pub open spec fn trimmed(text: Seq<char>) -> Seq<char> {
    trim_end(trim_start(text))
}

/// Whether a character is whitespace in Unicode's sense.
fn white_space(c: char) -> (res: bool)
    ensures
        res == is_white_space(c),
{
    let n = c as u32;
    (0x09 <= n && n <= 0x0D) || n == 0x20 || n == 0x85 || n == 0xA0 || n == 0x1680
        || (0x2000 <= n && n <= 0x200A) || n == 0x2028 || n == 0x2029 || n == 0x202F
        || n == 0x205F || n == 0x3000
}

/// The text without its leading and trailing whitespace (as `str::trim` gives it).
fn str_trim(text: &str) -> (res: String)
    ensures
        res@ == trimmed(text@),
{
    let chars = crate::polyglot::execute::char_vec(text);
    let n = chars.len();
    let mut start: usize = 0;
    proof {
        assert(text@.subrange(0, n as int) =~= text@);
    }
    while start < n && white_space(chars[start])
        invariant
            chars@ == text@,
            n == text@.len(),
            start <= n,
            trim_start(text@) == trim_start(text@.subrange(start as int, n as int)),
        decreases n - start,
    {
        proof {
            let rest = text@.subrange(start as int, n as int);
            assert(rest.drop_first() =~= text@.subrange(start + 1, n as int));
        }
        start = start + 1;
    }
    proof {
        let rest = text@.subrange(start as int, n as int);
        assert(trim_start(rest) == rest);
    }
    let mut end: usize = n;
    while end > start && white_space(chars[end - 1])
        invariant
            chars@ == text@,
            n == text@.len(),
            start <= end <= n,
            trimmed(text@) == trim_end(text@.subrange(start as int, end as int)),
        decreases end - start,
    {
        proof {
            let kept = text@.subrange(start as int, end as int);
            assert(kept.drop_last() =~= text@.subrange(start as int, end - 1));
        }
        end = end - 1;
    }
    proof {
        let kept = text@.subrange(start as int, end as int);
        assert(trim_end(kept) == kept);
    }
    String::from_str(text.substring_char(start, end))
}

/// A line of a rewritten program: trimmed, and with the exported memory
/// renamed where it declares memory; `None` where it declares memory without
/// exporting it, or the name's pattern does not compile.
pub open spec fn line_rewrite(line: Seq<char>) -> Option<Seq<char>> {
    let t = trimmed(line);
    if starts_with(t, "(memory"@) {
        if starts_with(t, memory_line_prefix()) {
            regex_replaced(quoted_pattern(), t, "\"memory\""@)
        } else {
            None
        }
    } else {
        Some(t)
    }
}

/// The lines joined by newlines.
pub open spec fn join_lines(lines: Seq<Seq<char>>) -> Seq<char>
    decreases lines.len(),
{
    if lines.len() == 0 {
        Seq::empty()
    } else if lines.len() == 1 {
        lines[0]
    } else {
        join_lines(lines.drop_last()) + "\n"@ + lines.last()
    }
}

/// Rewrites a disassembled program so that its memory is exported as
/// `memory`: every line trimmed, the memory line renamed, and the lines
/// joined by newlines. `None` exactly where a line cannot be rewritten: it
/// declares memory without exporting it, or the name's pattern fails to
/// compile.
pub fn modify_wat(wat: String) -> (res: Option<String>)
    ensures
        res is Some <==> forall|i: int| 0 <= i < text_lines(wat@).len()
            ==> (#[trigger] line_rewrite(text_lines(wat@)[i])) is Some,
        res matches Some(r) ==> r@ == join_lines(text_lines(wat@).map_values(|l: Seq<char>| line_rewrite(l)->0)),
{
    let lines = str_lines(wat.as_str());
    let ghost all = text_lines(wat@);
    let ghost wanted = all.map_values(|l: Seq<char>| line_rewrite(l)->0);
    let mut out = String::new();
    let mut i: usize = 0;
    while i < lines.len()
        invariant
            i <= lines@.len(),
            lines@.len() == all.len(),
            all == text_lines(wat@),
            forall|k: int| 0 <= k < lines@.len() ==> #[trigger] lines@[k]@ == all[k],
            wanted == all.map_values(|l: Seq<char>| line_rewrite(l)->0),
            out@ == join_lines(wanted.take(i as int)),
            forall|k: int| 0 <= k < i ==> (#[trigger] line_rewrite(all[k])) is Some,
        decreases lines@.len() - i,
    {
        let line = str_trim(lines[i].as_str());
        proof {
            reveal_strlit("(memory");
        }
        let rewritten = if str_starts_with(line.as_str(), "(memory") {
            if !str_starts_with(line.as_str(), "(memory (;0;) (export \"") {
                proof {
                    assert(line_rewrite(all[i as int]) is None);
                }
                return None;
            }
            match rewrite_memory_line(line) {
                Some(r) => r,
                None => {
                    proof {
                        assert(line_rewrite(all[i as int]) is None);
                    }
                    return None;
                },
            }
        } else {
            line
        };
        proof {
            assert(line_rewrite(all[i as int]) == Some(rewritten@));
        }
        let ghost before = out@;
        if i > 0 {
            out.append("\n");
        }
        out.append(rewritten.as_str());
        proof {
            reveal_strlit("\n");
            assert(wanted.take(i + 1).drop_last() =~= wanted.take(i as int));
            assert(rewritten@ == wanted[i as int]);
        }
        i = i + 1;
    }
    proof {
        assert(wanted.take(lines@.len() as int) =~= wanted);
    }
    Some(out)
}

} // verus!
