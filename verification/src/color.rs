//! Terminal colours for the command-line tools' messages.

use vstd::prelude::*;

verus! {

/// The escape that ends a colour.
pub open spec fn clear_code() -> Seq<char> {
    "\x1b[0;0m"@
}

/// Text in a terminal colour: the escape that starts the colour, the text,
/// and the escape that ends it.
pub open spec fn colored(code: Seq<char>, text: Seq<char>) -> Seq<char> {
    code + text + clear_code()
}

/// The escape for bold red.
pub open spec fn red_code() -> Seq<char> {
    "\x1b[31;1m"@
}

/// The escape for bold yellow.
pub open spec fn yellow_code() -> Seq<char> {
    "\x1b[33;1m"@
}

/// The escape for bold mint green.
pub open spec fn mint_code() -> Seq<char> {
    "\x1b[38;5;48;1m"@
}

fn paint(code: &str, text: &str) -> (res: String)
    ensures
        res@ == code@ + text@ + clear_code(),
{
    let mut res = String::from_str(code);
    res.append(text);
    res.append("\x1b[0;0m");
    res
}

/// The text in bold red.
pub fn red(text: &str) -> (res: String)
    ensures
        res@ == colored(red_code(), text@),
{
    paint("\x1b[31;1m", text)
}

/// The text in bold yellow.
pub fn yellow(text: &str) -> (res: String)
    ensures
        res@ == colored(yellow_code(), text@),
{
    paint("\x1b[33;1m", text)
}

/// The text in bold mint green.
pub fn mint(text: &str) -> (res: String)
    ensures
        res@ == colored(mint_code(), text@),
{
    paint("\x1b[38;5;48;1m", text)
}

} // verus!
