//! Arguments for the assistant's binary, built from a configuration and a
//! query. Building them cannot fail.

use vstd::prelude::*;
use crate::config::{Config, ConfigView, StreamFormat};
use crate::text::{decimal, decimal_string, texts};

verus! {

/// The arguments that select the output format. Plain text is the binary's
/// default and needs none; the event stream needs the verbose flag as well.
pub open spec fn format_args(format: StreamFormat) -> Seq<Seq<char>> {
    match format {
        StreamFormat::Text => Seq::empty(),
        StreamFormat::Json => seq!["--output-format"@, "json"@],
        StreamFormat::StreamJson => seq!["--output-format"@, "stream-json"@, "--verbose"@],
    }
}

/// The verbose flag where it is configured and the format has not brought
/// it already.
pub open spec fn verbose_args(format: StreamFormat, verbose: bool) -> Seq<Seq<char>> {
    if verbose && format != StreamFormat::StreamJson {
        seq!["--verbose"@]
    } else {
        Seq::empty()
    }
}

/// A flag with its value, or nothing where the value is not set.
pub open spec fn optional_args(flag: Seq<char>, value: Option<Seq<char>>) -> Seq<Seq<char>> {
    match value {
        Some(v) => seq![flag, v],
        None => Seq::empty(),
    }
}

/// One `--allowedTools` flag with its value for each tool, in the list's
/// order.
pub open spec fn tool_args(tools: Seq<Seq<char>>) -> Seq<Seq<char>>
    decreases tools.len(),
{
    if tools.len() == 0 {
        Seq::empty()
    } else {
        tool_args(tools.drop_last()) + seq!["--allowedTools"@, tools.last()]
    }
}

/// The flags for the configured tools, or nothing where no list is set.
pub open spec fn allowed_tool_args(tools: Option<Seq<Seq<char>>>) -> Seq<Seq<char>> {
    match tools {
        Some(t) => tool_args(t),
        None => Seq::empty(),
    }
}

/// The token limit in decimal, where one is set.
pub open spec fn max_tokens_text(max_tokens: Option<usize>) -> Option<Seq<char>> {
    match max_tokens {
        Some(n) => Some(decimal(n as nat)),
        None => None,
    }
}

/// The whole argument list: the non-interactive flag, the output format,
/// the verbose flag, the system prompt, the model, the MCP configuration,
/// the allowed tools, the token limit, and the query as the last argument.
pub open spec fn command_args(c: ConfigView, query: Seq<char>) -> Seq<Seq<char>> {
    seq!["-p"@] + format_args(c.stream_format) + verbose_args(c.stream_format, c.verbose)
        + optional_args("--system-prompt"@, c.system_prompt) + optional_args("--model"@, c.model)
        + optional_args("--mcp-config"@, c.mcp_config_path) + allowed_tool_args(c.allowed_tools)
        + optional_args("--max-tokens"@, max_tokens_text(c.max_tokens)) + seq![query]
}

/// The argument list starts with the non-interactive flag and ends with the
/// query, whatever is configured.
pub proof fn lemma_args_frame(c: ConfigView, query: Seq<char>)
    ensures
        command_args(c, query).len() >= 2,
        command_args(c, query).first() == "-p"@,
        command_args(c, query).last() == query,
{
}

/// The verbose flag is brought once where the event stream is asked for or
/// verbosity is configured, and not at all otherwise: never twice.
pub proof fn lemma_verbose_once(format: StreamFormat, verbose: bool)
    ensures
        (format_args(format) + verbose_args(format, verbose)).filter(
            |a: Seq<char>| a == "--verbose"@,
        ).len() == (if format == StreamFormat::StreamJson || verbose {
            1nat
        } else {
            0nat
        }),
{
    let is_flag = |a: Seq<char>| a == "--verbose"@;
    let all = format_args(format) + verbose_args(format, verbose);
    reveal_strlit("--verbose");
    reveal_strlit("--output-format");
    reveal_strlit("json");
    reveal_strlit("stream-json");
    assert("--output-format"@ != "--verbose"@) by {
        assert("--output-format"@.len() != "--verbose"@.len());
    }
    assert("json"@ != "--verbose"@) by {
        assert("json"@.len() != "--verbose"@.len());
    }
    assert("stream-json"@ != "--verbose"@) by {
        assert("stream-json"@.len() != "--verbose"@.len());
    }
    reveal_with_fuel(Seq::filter, 5);
    match format {
        StreamFormat::Text => {
            if verbose {
                assert(all =~= seq!["--verbose"@]);
                assert(all.drop_last() =~= Seq::<Seq<char>>::empty());
            } else {
                assert(all =~= Seq::<Seq<char>>::empty());
            }
        },
        StreamFormat::Json => {
            let two = seq!["--output-format"@, "json"@];
            assert(two.drop_last() =~= seq!["--output-format"@]);
            assert(two.drop_last().drop_last() =~= Seq::<Seq<char>>::empty());
            assert(two.filter(is_flag).len() == 0);
            if verbose {
                assert(all =~= seq!["--output-format"@, "json"@, "--verbose"@]);
                assert(all.drop_last() =~= two);
            } else {
                assert(all =~= two);
            }
        },
        StreamFormat::StreamJson => {
            let two = seq!["--output-format"@, "stream-json"@];
            assert(two.drop_last() =~= seq!["--output-format"@]);
            assert(two.drop_last().drop_last() =~= Seq::<Seq<char>>::empty());
            assert(two.filter(is_flag).len() == 0);
            assert(all =~= seq!["--output-format"@, "stream-json"@, "--verbose"@]);
            assert(all.drop_last() =~= two);
        },
    }
}

fn push_pair(args: &mut Vec<String>, flag: &str, value: &str)
    ensures
        texts(final(args)@) == texts(old(args)@) + seq![flag@, value@],
{
    args.push(flag.to_owned());
    args.push(value.to_owned());
    assert(texts(args@) =~= texts(old(args)@) + seq![flag@, value@]);
}

fn push_optional(args: &mut Vec<String>, flag: &str, value: &Option<String>)
    ensures
        texts(final(args)@) == texts(old(args)@) + optional_args(
            flag@,
            crate::config::opt_text(*value),
        ),
{
    match value {
        Some(v) => {
            push_pair(args, flag, v.as_str());
        },
        None => {
            assert(texts(args@) =~= texts(old(args)@) + Seq::<Seq<char>>::empty());
        },
    }
}

fn push_tools(args: &mut Vec<String>, tools: &Vec<String>)
    ensures
        texts(final(args)@) == texts(old(args)@) + tool_args(texts(tools@)),
{
    let ghost before = texts(args@);
    let mut i: usize = 0;
    assert(texts(tools@).take(0) =~= Seq::<Seq<char>>::empty());
    assert(texts(args@) =~= before + tool_args(texts(tools@).take(0)));
    while i < tools.len()
        invariant
            i <= tools.len(),
            texts(args@) == before + tool_args(texts(tools@).take(i as int)),
        decreases tools.len() - i,
    {
        let ghost sofar = texts(args@);
        push_pair(args, "--allowedTools", tools[i].as_str());
        proof {
            let all = texts(tools@);
            let next = all.take(i + 1);
            assert(next.drop_last() =~= all.take(i as int));
            assert(next.last() == tools@[i as int]@);
            assert(texts(args@) =~= before + tool_args(next));
        }
        i += 1;
    }
    assert(texts(tools@).take(tools.len() as int) =~= texts(tools@));
}

fn push_format(args: &mut Vec<String>, format: StreamFormat)
    ensures
        texts(final(args)@) == texts(old(args)@) + format_args(format),
{
    match format {
        StreamFormat::Text => {
            assert(texts(args@) =~= texts(old(args)@) + Seq::<Seq<char>>::empty());
        },
        StreamFormat::Json => {
            push_pair(args, "--output-format", "json");
        },
        StreamFormat::StreamJson => {
            push_pair(args, "--output-format", "stream-json");
            push_one(args, "--verbose");
            assert(seq!["--output-format"@, "stream-json"@] + seq!["--verbose"@] =~= format_args(
                format,
            ));
            assert(texts(args@) =~= texts(old(args)@) + format_args(format));
        },
    }
}

fn push_verbose(args: &mut Vec<String>, format: StreamFormat, verbose: bool)
    ensures
        texts(final(args)@) == texts(old(args)@) + verbose_args(format, verbose),
{
    let brought = match format {
        StreamFormat::StreamJson => true,
        _ => false,
    };
    if verbose && !brought {
        args.push("--verbose".to_owned());
    }
    assert(texts(args@) =~= texts(old(args)@) + verbose_args(format, verbose));
}

fn push_allowed_tools(args: &mut Vec<String>, tools: &Option<Vec<String>>)
    ensures
        texts(final(args)@) == texts(old(args)@) + allowed_tool_args(
            match *tools {
                Some(t) => Some(texts(t@)),
                None => None,
            },
        ),
{
    match tools {
        Some(t) => {
            push_tools(args, t);
        },
        None => {
            assert(texts(args@) =~= texts(old(args)@) + Seq::<Seq<char>>::empty());
        },
    }
}

fn push_max_tokens(args: &mut Vec<String>, max_tokens: Option<usize>)
    ensures
        texts(final(args)@) == texts(old(args)@) + optional_args(
            "--max-tokens"@,
            max_tokens_text(max_tokens),
        ),
{
    match max_tokens {
        Some(n) => {
            let number = decimal_string(n as u64);
            push_pair(args, "--max-tokens", number.as_str());
        },
        None => {
            assert(texts(args@) =~= texts(old(args)@) + Seq::<Seq<char>>::empty());
        },
    }
}

fn push_one(args: &mut Vec<String>, value: &str)
    ensures
        texts(final(args)@) == texts(old(args)@) + seq![value@],
{
    args.push(value.to_owned());
    assert(texts(args@) =~= texts(old(args)@) + seq![value@]);
}

/// Builds the arguments for one request.
pub fn build_args(config: &Config, query: &str) -> (r: Vec<String>)
    ensures
        texts(r@) == command_args(config@, query@),
{
    let mut args: Vec<String> = Vec::new();
    assert(texts(args@) =~= Seq::<Seq<char>>::empty());
    push_one(&mut args, "-p");
    assert(texts(args@) =~= seq!["-p"@]);
    push_format(&mut args, config.stream_format);
    push_verbose(&mut args, config.stream_format, config.verbose);
    push_optional(&mut args, "--system-prompt", &config.system_prompt);
    push_optional(&mut args, "--model", &config.model);
    push_optional(&mut args, "--mcp-config", &config.mcp_config_path);
    push_allowed_tools(&mut args, &config.allowed_tools);
    push_max_tokens(&mut args, config.max_tokens);
    push_one(&mut args, query);
    args
}

} // verus!
