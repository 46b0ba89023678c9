//! Keeping the generated help block of a reference page up to date.
use vstd::prelude::*;
use crate::text::{
    begins_with, chars_of, find_chars, find_from, lemma_find_from, lines, lines_of, push_all,
    slice_chars, starts_with_chars, string_of,
};
use clap::Command;

verus! {

/// The line that opens the generated block.
pub open spec fn begin_marker() -> Seq<char> {
    "<!-- BEGIN auto:help -->"@
}

/// The line that closes the generated block.
pub open spec fn end_marker() -> Seq<char> {
    "<!-- END auto:help -->"@
}

/// A whole generated block with its markers, set off by a blank line before it.
pub open spec fn help_block(inner: Seq<char>) -> Seq<char> {
    seq!['\n'] + begin_marker() + seq!['\n'] + inner + seq!['\n'] + end_marker() + seq!['\n']
}

/// Lines written back out, each followed by `'\n'`.
pub open spec fn joined_lines(ls: Seq<Seq<char>>) -> Seq<char>
    decreases ls.len(),
{
    if ls.len() == 0 {
        Seq::empty()
    } else {
        joined_lines(ls.drop_last()) + ls.last() + seq!['\n']
    }
}

/// The index of the first line at or after `i` that is a level-one heading (`"# "`).
pub open spec fn heading_from(ls: Seq<Seq<char>>, i: int) -> Option<int>
    decreases ls.len() - i,
{
    if i < 0 || i >= ls.len() {
        None
    } else if begins_with(ls[i], "# "@) {
        Some(i)
    } else {
        heading_from(ls, i + 1)
    }
}

/// `content` with its generated block replaced by `inner`.
///
/// When a begin marker is present and an end marker follows it, everything strictly
/// between the first begin marker and the first end marker after it becomes
/// `"\n" + inner + "\n"`; the rest of the text is kept as it is. Otherwise the
/// text is rewritten line by line (each line ending in `'\n'`) and a fresh block
/// is inserted after the first `"# "` heading, or appended when there is none.
pub open spec fn replaced_block(content: Seq<char>, inner: Seq<char>) -> Seq<char> {
    let found = match find_from(content, begin_marker(), 0) {
        Some(b) => find_from(content, end_marker(), b + begin_marker().len()),
        None => None,
    };
    match found {
        Some(e) => {
            let b = find_from(content, begin_marker(), 0)->0;
            content.take(b + begin_marker().len()) + seq!['\n'] + inner + seq!['\n']
                + content.skip(e)
        },
        None => {
            let ls = lines(content);
            match heading_from(ls, 0) {
                Some(h) => joined_lines(ls.take(h + 1)) + help_block(inner) + joined_lines(
                    ls.skip(h + 1),
                ),
                None => joined_lines(ls) + help_block(inner),
            }
        },
    }
}

proof fn lemma_joined_step(ls: Seq<Seq<char>>, a: int, i: int)
    requires
        0 <= a <= i < ls.len(),
    ensures
        joined_lines(ls.subrange(a, i + 1)) == joined_lines(ls.subrange(a, i)) + ls[i] + seq!['\n'],
{
    assert(ls.subrange(a, i + 1).drop_last() == ls.subrange(a, i));
}

/// Writes the generated block (`"\n"`, begin marker, `inner`, end marker, each ending a line).
fn push_block(out: &mut Vec<char>, begin: &Vec<char>, inner: &Vec<char>, end: &Vec<char>)
    requires
        begin@ == begin_marker(),
        end@ == end_marker(),
    ensures
        final(out)@ == old(out)@ + help_block(inner@),
{
    out.push('\n');
    push_all(out, begin.as_slice());
    out.push('\n');
    push_all(out, inner.as_slice());
    out.push('\n');
    push_all(out, end.as_slice());
    out.push('\n');
}

/// Replaces the generated help block of a reference page with `new_inner`, or inserts
/// one after the page's first `# ` heading (at the end when there is none).
pub fn replace_block(content: &str, new_inner: &str) -> (r: String)
    ensures
        r@ == replaced_block(content@, new_inner@),
{
    let c = chars_of(content);
    let inner = chars_of(new_inner);
    let begin = chars_of("<!-- BEGIN auto:help -->");
    let end = chars_of("<!-- END auto:help -->");
    if let Some(b) = find_chars(c.as_slice(), begin.as_slice(), 0) {
        proof {
            lemma_find_from(c@, begin@, 0);
            assert(crate::text::occurs_at(c@, begin@, b as int));
            assert(b + begin@.len() <= c.len());
        }
        let be = b + begin.len();
        if let Some(e) = find_chars(c.as_slice(), end.as_slice(), be) {
            proof {
                lemma_find_from(c@, end@, be as int);
            }
            let mut out = slice_chars(c.as_slice(), 0, be);
            out.push('\n');
            push_all(&mut out, inner.as_slice());
            out.push('\n');
            let tail = slice_chars(c.as_slice(), e, c.len());
            push_all(&mut out, tail.as_slice());
            assert(c@.subrange(0, be as int) == c@.take(be as int));
            assert(c@.subrange(e as int, c@.len() as int) == c@.skip(e as int));
            return string_of(out.as_slice());
        }
    }
    let ls = lines_of(c.as_slice());
    let ghost lv = lines(c@);
    let heading = chars_of("# ");
    let mut out: Vec<char> = Vec::new();
    let mut inserted = false;
    let ghost mut h: int = 0;
    let mut i: usize = 0;
    while i < ls.len()
        invariant
            i <= ls.len() == lv.len(),
            heading@ == "# "@,
            begin@ == begin_marker(),
            end@ == end_marker(),
            forall|k: int| 0 <= k < ls@.len() ==> #[trigger] ls@[k]@ == lv[k],
            inserted ==> heading_from(lv, 0) == Some(h) && 0 <= h < i && out@ == joined_lines(
                lv.take(h + 1),
            ) + help_block(inner@) + joined_lines(lv.subrange(h + 1, i as int)),
            !inserted ==> heading_from(lv, 0) == heading_from(lv, i as int) && out@
                == joined_lines(lv.take(i as int)),
        decreases ls.len() - i,
    {
        push_all(&mut out, ls[i].as_slice());
        out.push('\n');
        proof {
            if inserted {
                lemma_joined_step(lv, h + 1, i as int);
            } else {
                lemma_joined_step(lv, 0, i as int);
                assert(lv.subrange(0, i + 1) == lv.take(i + 1));
                assert(lv.subrange(0, i as int) == lv.take(i as int));
            }
        }
        if !inserted && starts_with_chars(ls[i].as_slice(), heading.as_slice()) {
            push_block(&mut out, &begin, &inner, &end);
            inserted = true;
            proof {
                h = i as int;
                assert(lv.subrange(h + 1, h + 1) == Seq::<Seq<char>>::empty());
            }
        }
        i = i + 1;
    }
    if !inserted {
        push_block(&mut out, &begin, &inner, &end);
        assert(lv.take(lv.len() as int) == lv);
    } else {
        assert(lv.subrange(h + 1, lv.len() as int) == lv.skip(h + 1));
    }
    string_of(out.as_slice())
}

/// A command-line definition built with clap.
#[verifier::external_type_specification]
#[verifier::external_body]
pub struct ExCommand(Command);

/// One argument of a command as the help block reads it.
pub struct HelpArg {
    /// Its long flag, without the dashes.
    pub long: Option<String>,
    /// Whether it is global (then it belongs to the parent's page).
    pub global: bool,
    /// The first name of its value, if it takes one.
    pub value_name: Option<String>,
    /// Its help text.
    pub help: Option<String>,
}

/// The value of a [`HelpArg`]: (long, global, value name, help).
pub open spec fn help_arg_view(a: HelpArg) -> (Option<Seq<char>>, bool, Option<Seq<char>>, Option<Seq<char>>) {
    (
        match a.long {
            Some(l) => Some(l@),
            None => None,
        },
        a.global,
        match a.value_name {
            Some(v) => Some(v@),
            None => None,
        },
        match a.help {
            Some(h) => Some(h@),
            None => None,
        },
    )
}

/// The values of a sequence of [`HelpArg`]s.
pub open spec fn help_args_view(v: Seq<HelpArg>) -> Seq<(Option<Seq<char>>, bool, Option<Seq<char>>, Option<Seq<char>>)> {
    v.map_values(|a: HelpArg| help_arg_view(a))
}

/// The name a command was built with.
pub uninterp spec fn command_name_of(c: Command) -> Seq<char>;

/// The arguments a command holds, in the order they were added, each read as
/// (long flag, global, first value name, help text).
pub uninterp spec fn command_args_of(c: Command) -> Seq<(Option<Seq<char>>, bool, Option<Seq<char>>, Option<Seq<char>>)>;

/// `Command::get_name`, copied into a `String`: claimed to be [`command_name_of`] the
/// command.
#[verifier::external_body]
fn command_name(cmd: &Command) -> (r: String)
    ensures
        r@ == command_name_of(*cmd),
{
    cmd.get_name().to_string()
}

/// `Command::get_arguments`, each argument handed out as a [`HelpArg`] (its
/// `get_long`, `is_global_set`, the first of `get_value_names`, and `get_help` as
/// text): claimed to be [`command_args_of`] the command.
#[verifier::external_body]
fn command_arguments(cmd: &Command) -> (r: Vec<HelpArg>)
    ensures
        help_args_view(r@) == command_args_of(*cmd),
{
    cmd.get_arguments().map(|a| HelpArg {
        long: a.get_long().map(|l| l.to_string()),
        global: a.is_global_set(),
        value_name: a.get_value_names().and_then(|n| n.first()).map(|v| v.to_string()),
        help: a.get_help().map(|h| h.to_string()),
    }).collect()
}

/// Whether an argument gets a row in the flags table: it has a long flag and is not
/// global.
pub open spec fn is_flag(a: (Option<Seq<char>>, bool, Option<Seq<char>>, Option<Seq<char>>)) -> bool {
    a.0 is Some && !a.1
}

/// The arguments that get a row in the flags table, in order.
pub open spec fn flag_args(args: Seq<(Option<Seq<char>>, bool, Option<Seq<char>>, Option<Seq<char>>)>) -> Seq<
    (Option<Seq<char>>, bool, Option<Seq<char>>, Option<Seq<char>>),
>
    decreases args.len(),
{
    if args.len() == 0 {
        args
    } else if is_flag(args.last()) {
        flag_args(args.drop_last()).push(args.last())
    } else {
        flag_args(args.drop_last())
    }
}

/// The flags-table row of an argument: ``| `--long <VALUE>` | help |`` (without
/// `<VALUE>` when it takes none; an empty help when it has none).
pub open spec fn flag_row(a: (Option<Seq<char>>, bool, Option<Seq<char>>, Option<Seq<char>>)) -> Seq<char> {
    let cell = match a.2 {
        Some(v) => "`--"@ + a.0->0 + " <"@ + v + ">`"@,
        None => "`--"@ + a.0->0 + "`"@,
    };
    let help = match a.3 {
        Some(h) => h,
        None => Seq::empty(),
    };
    "| "@ + cell + " | "@ + help + " |\n"@
}

/// The rows of a flags table.
pub open spec fn flag_rows(flags: Seq<(Option<Seq<char>>, bool, Option<Seq<char>>, Option<Seq<char>>)>) -> Seq<char>
    decreases flags.len(),
{
    if flags.len() == 0 {
        Seq::empty()
    } else {
        flag_rows(flags.drop_last()) + flag_row(flags.last())
    }
}

/// The generated help of subcommand `name` with arguments `args`: a synopsis
/// (`tofa <name>`, with `[FLAGS]` when some argument gets a row) in a code block,
/// then, when there are such arguments, a table of their flags.
pub open spec fn help_block_text(
    name: Seq<char>,
    args: Seq<(Option<Seq<char>>, bool, Option<Seq<char>>, Option<Seq<char>>)>,
) -> Seq<char> {
    let flags = flag_args(args);
    let synopsis = if flags.len() == 0 {
        "tofa "@ + name
    } else {
        "tofa "@ + name + " [FLAGS]"@
    };
    let head = "**Synopsis**\n\n```\n"@ + synopsis + "\n```\n"@;
    if flags.len() == 0 {
        head
    } else {
        head + "\n**Flags**\n\n| Flag | Description |\n|---|---|\n"@ + flag_rows(flags)
    }
}

/// The generated help of subcommand `name` with arguments `args`.
pub fn help_block_of(name: &str, args: &[HelpArg]) -> (r: String)
    ensures
        r@ == help_block_text(name@, help_args_view(args@)),
{
    let ghost av = help_args_view(args@);
    let mut any = false;
    let mut i: usize = 0;
    while i < args.len()
        invariant
            i <= args@.len(),
            av == help_args_view(args@),
            any == (flag_args(av.take(i as int)).len() > 0),
        decreases args.len() - i,
    {
        proof {
            assert(av.take(i + 1).drop_last() =~= av.take(i as int));
            assert(av.take(i + 1).last() == help_arg_view(args@[i as int]));
        }
        if args[i].long.is_some() && !args[i].global {
            any = true;
        }
        i = i + 1;
    }
    assert(av.take(args@.len() as int) =~= av);
    let mut out = chars_of("**Synopsis**\n\n```\ntofa ");
    push_all(&mut out, chars_of(name).as_slice());
    if any {
        push_all(&mut out, chars_of(" [FLAGS]").as_slice());
    }
    push_all(&mut out, chars_of("\n```\n").as_slice());
    proof {
        let synopsis = if !any { "tofa "@ + name@ } else { "tofa "@ + name@ + " [FLAGS]"@ };
        reveal_strlit("**Synopsis**\n\n```\ntofa ");
        reveal_strlit("**Synopsis**\n\n```\n");
        reveal_strlit("tofa ");
        assert("**Synopsis**\n\n```\ntofa "@ =~= "**Synopsis**\n\n```\n"@ + "tofa "@);
        assert(out@ =~= "**Synopsis**\n\n```\n"@ + synopsis + "\n```\n"@);
    }
    if !any {
        return string_of(out.as_slice());
    }
    push_all(&mut out, chars_of("\n**Flags**\n\n| Flag | Description |\n|---|---|\n").as_slice());
    let ghost head = out@;
    let mut j: usize = 0;
    while j < args.len()
        invariant
            j <= args@.len(),
            av == help_args_view(args@),
            out@ == head + flag_rows(flag_args(av.take(j as int))),
        decreases args.len() - j,
    {
        proof {
            assert(av.take(j + 1).drop_last() =~= av.take(j as int));
            assert(av.take(j + 1).last() == help_arg_view(args@[j as int]));
        }
        let a = &args[j];
        if a.long.is_some() && !a.global {
            let ghost before = out@;
            let long = a.long.as_ref().unwrap();
            push_all(&mut out, chars_of("| `--").as_slice());
            push_all(&mut out, chars_of(long.as_str()).as_slice());
            match &a.value_name {
                Some(v) => {
                    push_all(&mut out, chars_of(" <").as_slice());
                    push_all(&mut out, chars_of(v.as_str()).as_slice());
                    push_all(&mut out, chars_of(">`").as_slice());
                },
                None => {
                    push_all(&mut out, chars_of("`").as_slice());
                },
            }
            push_all(&mut out, chars_of(" | ").as_slice());
            match &a.help {
                Some(h) => {
                    push_all(&mut out, chars_of(h.as_str()).as_slice());
                },
                None => {},
            }
            push_all(&mut out, chars_of(" |\n").as_slice());
            proof {
                let x = help_arg_view(args@[j as int]);
                reveal_strlit("| `--");
                reveal_strlit("| ");
                reveal_strlit("`--");
                assert("| `--"@ =~= "| "@ + "`--"@);
                assert(out@ =~= before + flag_row(x));
                let fs = flag_args(av.take(j as int));
                assert(fs.push(x).drop_last() =~= fs);
                assert(flag_rows(fs.push(x)) == flag_rows(fs) + flag_row(x));
            }
        }
        j = j + 1;
    }
    assert(av.take(args@.len() as int) =~= av);
    string_of(out.as_slice())
}

/// The generated help of a subcommand: see [`help_block_text`].
pub fn render_help_block(cmd: &Command) -> (r: String)
    ensures
        r@ == help_block_text(command_name_of(*cmd), command_args_of(*cmd)),
{
    let name = command_name(cmd);
    let args = command_arguments(cmd);
    help_block_of(name.as_str(), args.as_slice())
}

/// A new reference page for subcommand `name`: its title, then the generated block.
pub open spec fn scaffold_text(name: Seq<char>, block: Seq<char>) -> Seq<char> {
    "# tofa "@ + name + seq!['\n'] + help_block(block)
}

/// A new reference page for subcommand `name` holding `block` as its generated help.
pub fn scaffold_page(name: &str, block: &str) -> (r: String)
    ensures
        r@ == scaffold_text(name@, block@),
{
    let mut out = chars_of("# tofa ");
    push_all(&mut out, chars_of(name).as_slice());
    out.push('\n');
    let begin = chars_of("<!-- BEGIN auto:help -->");
    let end = chars_of("<!-- END auto:help -->");
    push_block(&mut out, &begin, &chars_of(block), &end);
    string_of(out.as_slice())
}

} // verus!
