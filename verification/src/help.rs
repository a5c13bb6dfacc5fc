//! The texts that a command line shows about a server and its tools.

use crate::tool_box::ToolDescriptor;
use vstd::prelude::*;
use vstd::string::StringExecFns;

verus! {

/// The escape sequence that switches bold text on.
pub const BOLD_ON: &'static str = "\u{1b}[1m";

/// The escape sequence that switches dimmed text on.
pub const DIMMED_ON: &'static str = "\u{1b}[2m";

/// The escape sequence that switches underlined text on.
pub const UNDERLINE_ON: &'static str = "\u{1b}[4m";

/// The escape sequence that switches every style off.
pub const STYLE_OFF: &'static str = "\u{1b}[0m";

/// A text style, as the two escape sequences that a terminal takes: the one
/// that switches the style on and the one that switches it off again.
struct TextStyle {
    on: String,
    off: String,
}

/// `clap::builder::styling::Style`, bold, as it displays: plainly as
/// [`BOLD_ON`], in the alternate form as [`STYLE_OFF`].
#[verifier::external_body]
fn bold() -> (style: TextStyle)
    ensures
        style.on@ == BOLD_ON@,
        style.off@ == STYLE_OFF@,
{
    let style = clap::builder::styling::Style::new().bold();
    TextStyle { on: format!("{style}"), off: format!("{style:#}") }
}

/// `clap::builder::styling::Style`, dimmed, as it displays: plainly as
/// [`DIMMED_ON`], in the alternate form as [`STYLE_OFF`].
#[verifier::external_body]
fn dimmed() -> (style: TextStyle)
    ensures
        style.on@ == DIMMED_ON@,
        style.off@ == STYLE_OFF@,
{
    let style = clap::builder::styling::Style::new().dimmed();
    TextStyle { on: format!("{style}"), off: format!("{style:#}") }
}

/// `clap::builder::styling::Style`, underlined, as it displays: plainly as
/// [`UNDERLINE_ON`], in the alternate form as [`STYLE_OFF`].
#[verifier::external_body]
fn underlined() -> (style: TextStyle)
    ensures
        style.on@ == UNDERLINE_ON@,
        style.off@ == STYLE_OFF@,
{
    let style = clap::builder::styling::Style::new().underline();
    TextStyle { on: format!("{style}"), off: format!("{style:#}") }
}

/// The decimal digit of a number below ten.
pub open spec fn digit(value: nat) -> char {
    if value == 0 {
        '0'
    } else if value == 1 {
        '1'
    } else if value == 2 {
        '2'
    } else if value == 3 {
        '3'
    } else if value == 4 {
        '4'
    } else if value == 5 {
        '5'
    } else if value == 6 {
        '6'
    } else if value == 7 {
        '7'
    } else if value == 8 {
        '8'
    } else {
        '9'
    }
}

/// A number in decimal digits, without leading zeros.
pub open spec fn decimal(number: nat) -> Seq<char>
    decreases number,
{
    if number < 10 {
        seq![digit(number)]
    } else {
        decimal(number / 10).push(digit(number % 10))
    }
}

/// The name under which a tool is shown: its title, or its name where it has
/// no title.
pub open spec fn shown_name(tool: ToolDescriptor) -> Seq<char> {
    match tool.title {
        Some(title) => title@,
        None => tool.name@,
    }
}

/// The entry of a tool in the listing: its number, its shown name
/// underlined, and its description on a line of its own, or a dimmed note
/// where it has none.
pub open spec fn listing_entry(number: nat, tool: ToolDescriptor) -> Seq<char> {
    let head = decimal(number) + ". "@ + UNDERLINE_ON@ + shown_name(tool) + STYLE_OFF@;
    match tool.description {
        Some(description) => head + "\n    "@ + description@,
        None => head + ": "@ + DIMMED_ON@ + "no description available"@ + STYLE_OFF@,
    }
}

/// The entries of the tools, numbered from one in the order of the catalog.
pub open spec fn listing_entries(tools: Seq<ToolDescriptor>) -> Seq<Seq<char>> {
    Seq::new(tools.len(), |index: int| listing_entry((index + 1) as nat, tools[index]))
}

/// Whether `one` does not come after `other` in the order of strings: the
/// lexicographic order by code point.
pub open spec fn precedes(one: Seq<char>, other: Seq<char>) -> bool
    decreases one.len(),
{
    if one.len() == 0 {
        true
    } else if other.len() == 0 {
        false
    } else if one[0] != other[0] {
        (one[0] as int) < (other[0] as int)
    } else {
        precedes(one.skip(1), other.skip(1))
    }
}

/// The texts of a sequence of strings.
pub open spec fn texts(lines: Seq<String>) -> Seq<Seq<char>> {
    lines.map_values(|line: String| line@)
}

/// `lines` are `entries` in ascending order.
pub open spec fn is_sorted_listing(entries: Seq<Seq<char>>, lines: Seq<Seq<char>>) -> bool {
    &&& lines.to_multiset() == entries.to_multiset()
    &&& forall|i: int, j: int| 0 <= i <= j < lines.len() ==> precedes(lines[i], lines[j])
}

/// The lines, each but the last followed by a line break.
pub open spec fn joined(lines: Seq<Seq<char>>) -> Seq<char>
    decreases lines.len(),
{
    if lines.len() == 0 {
        Seq::empty()
    } else if lines.len() == 1 {
        lines[0]
    } else {
        joined(lines.drop_last()) + "\n"@ + lines.last()
    }
}

/// What the command line says about the server before its options.
pub open spec fn about_text(title: Seq<char>, name: Seq<char>) -> Seq<char> {
    UNDERLINE_ON@ + title + STYLE_OFF@
        + "\n\nStart the MCP server in stdio mode by running the command:\n  "@ + BOLD_ON@ + name
        + STYLE_OFF@
        + "\n\nTo use SSE (Server-Sent Events), pass the --host and/or the --port options\n  "@
        + BOLD_ON@ + name + " --port 8080"@ + STYLE_OFF@ + "\n"@
}

/// What the long help says after the options, above the listing of the
/// tools.
pub open spec fn after_help_head(title: Seq<char>, instructions: Seq<char>) -> Seq<char> {
    "MCP server: "@ + title + "\n\n"@ + BOLD_ON@ + "Instructions:"@ + STYLE_OFF@ + "\n"@
        + instructions + "\n\n"@ + BOLD_ON@ + "Tools:"@ + STYLE_OFF@ + "\n"@
}

/// `sort` of the standard library on a vector of strings: the same strings,
/// in ascending order. Strings are ordered lexicographically by their bytes,
/// which for UTF-8 is the order by code point.
#[verifier::external_body]
fn sort_lines(lines: &mut Vec<String>)
    ensures
        is_sorted_listing(texts(old(lines)@), texts(final(lines)@)),
{
    lines.sort();
}

fn digit_text(value: usize) -> (text: &'static str)
    requires
        value < 10,
    ensures
        text@ == seq![digit(value as nat)],
{
    proof {
        reveal_strlit("0");
        reveal_strlit("1");
        reveal_strlit("2");
        reveal_strlit("3");
        reveal_strlit("4");
        reveal_strlit("5");
        reveal_strlit("6");
        reveal_strlit("7");
        reveal_strlit("8");
        reveal_strlit("9");
    }
    let text = if value == 0 {
        "0"
    } else if value == 1 {
        "1"
    } else if value == 2 {
        "2"
    } else if value == 3 {
        "3"
    } else if value == 4 {
        "4"
    } else if value == 5 {
        "5"
    } else if value == 6 {
        "6"
    } else if value == 7 {
        "7"
    } else if value == 8 {
        "8"
    } else {
        "9"
    };
    assert(text@ =~= seq![digit(value as nat)]);
    text
}

/// Writes a number in decimal digits.
pub fn decimal_text(number: usize) -> (text: String)
    ensures
        text@ == decimal(number as nat),
    decreases number,
{
    if number < 10 {
        let mut text = String::new();
        text.append(digit_text(number));
        assert(text@ =~= decimal(number as nat));
        text
    } else {
        let mut text = decimal_text(number / 10);
        text.append(digit_text(number % 10));
        assert(text@ =~= decimal(number as nat));
        text
    }
}

/// The entry of a tool in the listing (see [`listing_entry`]).
pub fn tool_entry(number: usize, tool: &ToolDescriptor) -> (entry: String)
    ensures
        entry@ == listing_entry(number as nat, *tool),
{
    let underline = underlined();
    let mut entry = decimal_text(number);
    entry.append(". ");
    entry.append(underline.on.as_str());
    match &tool.title {
        Some(title) => entry.append(title.as_str()),
        None => entry.append(tool.name.as_str()),
    }
    entry.append(underline.off.as_str());
    match &tool.description {
        Some(description) => {
            entry.append("\n    ");
            entry.append(description.as_str());
        },
        None => {
            let dim = dimmed();
            entry.append(": ");
            entry.append(dim.on.as_str());
            entry.append("no description available");
            entry.append(dim.off.as_str());
        },
    }
    assert(entry@ =~= listing_entry(number as nat, *tool));
    entry
}

/// The listing of the tools: one entry for each, numbered in the order of
/// the catalog, the entries then sorted as strings.
pub fn tool_listing(tools: &Vec<ToolDescriptor>) -> (lines: Vec<String>)
    ensures
        is_sorted_listing(listing_entries(tools@), texts(lines@)),
{
    let mut lines: Vec<String> = Vec::new();
    let mut index: usize = 0;
    while index < tools.len()
        invariant
            index <= tools.len(),
            texts(lines@) == listing_entries(tools@.take(index as int)),
        decreases tools.len() - index,
    {
        let entry = tool_entry(index + 1, &tools[index]);
        let ghost before = lines@;
        lines.push(entry);
        proof {
            assert(texts(lines@) =~= texts(before).push(entry@));
            assert(texts(lines@) =~= listing_entries(tools@.take(index + 1)));
        }
        index += 1;
    }
    proof {
        assert(tools@.take(index as int) == tools@);
    }
    sort_lines(&mut lines);
    lines
}

/// Joins lines by line breaks.
pub fn join_lines(lines: &Vec<String>) -> (text: String)
    ensures
        text@ == joined(texts(lines@)),
{
    let mut text = String::new();
    let mut index: usize = 0;
    while index < lines.len()
        invariant
            index <= lines.len(),
            text@ == joined(texts(lines@).take(index as int)),
        decreases lines.len() - index,
    {
        let ghost upto = texts(lines@).take(index + 1);
        proof {
            assert(upto.drop_last() == texts(lines@).take(index as int));
            assert(upto.last() == lines@[index as int]@);
        }
        if index > 0 {
            text.append("\n");
        }
        text.append(lines[index].as_str());
        proof {
            assert(text@ =~= joined(upto));
        }
        index += 1;
    }
    proof {
        assert(texts(lines@).take(index as int) == texts(lines@));
    }
    text
}

/// What the command line says about the server before its options (see
/// [`about_text`]).
pub fn help_about(title: &str, name: &str) -> (text: String)
    ensures
        text@ == about_text(title@, name@),
{
    let underline = underlined();
    let strong = bold();
    let mut text = String::new();
    text.append(underline.on.as_str());
    text.append(title);
    text.append(underline.off.as_str());
    text.append("\n\nStart the MCP server in stdio mode by running the command:\n  ");
    text.append(strong.on.as_str());
    text.append(name);
    text.append(strong.off.as_str());
    text.append(
        "\n\nTo use SSE (Server-Sent Events), pass the --host and/or the --port options\n  ",
    );
    text.append(strong.on.as_str());
    text.append(name);
    text.append(" --port 8080");
    text.append(strong.off.as_str());
    text.append("\n");
    assert(text@ =~= about_text(title@, name@));
    text
}

/// What the long help says after the options: the server's title and
/// instructions, then the sorted listing of the tools.
pub fn help_after(title: &str, instructions: &str, tools: &Vec<ToolDescriptor>) -> (text: String)
    ensures
        exists|lines: Seq<Seq<char>>|
            {
                &&& #[trigger] is_sorted_listing(listing_entries(tools@), lines)
                &&& text@ == after_help_head(title@, instructions@) + joined(lines)
            },
{
    let strong = bold();
    let mut text = String::new();
    text.append("MCP server: ");
    text.append(title);
    text.append("\n\n");
    text.append(strong.on.as_str());
    text.append("Instructions:");
    text.append(strong.off.as_str());
    text.append("\n");
    text.append(instructions);
    text.append("\n\n");
    text.append(strong.on.as_str());
    text.append("Tools:");
    text.append(strong.off.as_str());
    text.append("\n");
    assert(text@ =~= after_help_head(title@, instructions@));
    let lines = tool_listing(tools);
    let listing = join_lines(&lines);
    text.append(listing.as_str());
    text
}

/// Every string precedes itself.
pub proof fn precedes_is_reflexive(text: Seq<char>)
    ensures
        precedes(text, text),
    decreases text.len(),
{
    if text.len() > 0 {
        precedes_is_reflexive(text.skip(1));
    }
}

/// Two strings that precede each other are the same string.
pub proof fn precedes_is_antisymmetric(one: Seq<char>, other: Seq<char>)
    requires
        precedes(one, other),
        precedes(other, one),
    ensures
        one == other,
    decreases one.len(),
{
    if one.len() > 0 {
        precedes_is_antisymmetric(one.skip(1), other.skip(1));
        assert(one =~= seq![one[0]] + one.skip(1));
        assert(other =~= seq![other[0]] + other.skip(1));
    }
    assert(one =~= other);
}

/// What precedes a string precedes all that the string precedes.
pub proof fn precedes_is_transitive(first: Seq<char>, second: Seq<char>, third: Seq<char>)
    requires
        precedes(first, second),
        precedes(second, third),
    ensures
        precedes(first, third),
    decreases first.len(),
{
    if first.len() > 0 && first[0] == second[0] && second[0] == third[0] {
        precedes_is_transitive(first.skip(1), second.skip(1), third.skip(1));
    }
}

/// Of two strings one precedes the other.
pub proof fn precedes_is_total(one: Seq<char>, other: Seq<char>)
    ensures
        precedes(one, other) || precedes(other, one),
    decreases one.len(),
{
    if one.len() > 0 && other.len() > 0 && one[0] == other[0] {
        precedes_is_total(one.skip(1), other.skip(1));
    }
}

/// The sorted listing of given entries is one sequence of lines and no
/// other: what [`tool_listing`] returns is determined by the tools.
pub proof fn sorted_listing_is_unique(
    entries: Seq<Seq<char>>,
    one: Seq<Seq<char>>,
    other: Seq<Seq<char>>,
)
    requires
        is_sorted_listing(entries, one),
        is_sorted_listing(entries, other),
    ensures
        one == other,
{
    let order = |before: Seq<char>, after: Seq<char>| precedes(before, after);
    assert forall|text: Seq<char>| #[trigger] order(text, text) by {
        precedes_is_reflexive(text);
    }
    assert forall|x: Seq<char>, y: Seq<char>| #[trigger] order(x, y) && #[trigger] order(y, x) implies x
        == y by {
        precedes_is_antisymmetric(x, y);
    }
    assert forall|x: Seq<char>, y: Seq<char>, z: Seq<char>| #[trigger]
        order(x, y) && #[trigger] order(y, z) implies order(x, z) by {
        precedes_is_transitive(x, y, z);
    }
    assert forall|x: Seq<char>, y: Seq<char>| #[trigger] order(x, y) || #[trigger] order(y, x) by {
        precedes_is_total(x, y);
    }
    assert(vstd::relations::total_ordering(order));
    assert(vstd::relations::sorted_by(one, order));
    assert(vstd::relations::sorted_by(other, order));
    vstd::seq_lib::lemma_sorted_unique(one, other, order);
}

} // verus!
