//! The system prompt that opens every run.
use vstd::prelude::*;
use crate::text::{decimal, decimal_text};

verus! {

pub const PROMPT_INTRO: &'static str = "You are a CLI agent. Use tools to inspect and modify the workspace to complete the task.\nRules:\n- Use at most one tool call per step.\n- Prefer tools over guessing. Tool outputs are authoritative.";

pub const SUBMIT_RULE: &'static str = "\n- If you are done, call submit with a concise final answer.";

pub const ANSWER_RULE: &'static str = "\n- If you are done, respond with a concise final answer.";

pub const TOOL_LIST: &'static str = "\n\nTools:\n- shell_command(command, workdir?, timeout_ms?, max_output_chars?)\n- read_file(file_path, offset?, limit?)\n- list_dir(dir_path, offset?, limit?, depth?)\n- grep_files(pattern, path?, include?, limit?)\n- apply_patch(patch)\n";

pub const SUBMIT_TOOL_LINE: &'static str = "- submit(answer)\n";

pub const TOOL_NOTES: &'static str = "\nTool usage notes:\n- Pagination is 1-indexed: read_file.offset and list_dir.offset start at 1 (not 0). limit/depth must be >= 1.\n- grep_files.pattern is a Rust regex. Escape metacharacters if you want a literal match (e.g. use \"main\\(\" to search for \"main(\").\n- If you need to edit files, prefer apply_patch.\n";

/// A limit as the prompt shows it.
pub open spec fn limit_text(v: Option<nat>) -> Seq<char> {
    match v {
        Some(n) => decimal(n),
        None => "unset"@,
    }
}

/// The system prompt: the rules, the environment (working directory, step
/// and time limits), the tools, usage notes, and the project's agent
/// instructions when there are any.
pub open spec fn system_prompt_of(
    cwd: Seq<char>,
    max_steps: Option<nat>,
    time_limit_secs: Option<nat>,
    submit_enabled: bool,
    notes: Option<Seq<char>>,
) -> Seq<char> {
    PROMPT_INTRO@ + (if submit_enabled {
        SUBMIT_RULE@
    } else {
        ANSWER_RULE@
    }) + "\nEnvironment:\n- cwd: "@ + cwd + "\n- max_steps: "@ + limit_text(max_steps)
        + "\n- time_limit_sec: "@ + limit_text(time_limit_secs) + "\n- network_access: enabled\n- sandbox: none"@
        + TOOL_LIST@ + (if submit_enabled {
        SUBMIT_TOOL_LINE@
    } else {
        Seq::empty()
    }) + TOOL_NOTES@ + match notes {
        Some(n) => "\n\n"@ + n,
        None => Seq::empty(),
    }
}

fn append_limit(s: &mut String, v: Option<u64>)
    ensures
        final(s)@ == old(s)@ + limit_text(
            match v {
                Some(n) => Some(n as nat),
                None => None,
            },
        ),
{
    match v {
        Some(n) => {
            let t = decimal_text(n);
            s.append(t.as_str());
        },
        None => s.append("unset"),
    }
}

/// Builds the system prompt for a run in `cwd`; `agents_text` is the text of
/// the project's agent instruction files, when there are any. Returns the
/// prompt and those instructions.
pub fn build_system_prompt(
    cwd: &str,
    max_steps: Option<usize>,
    time_limit_secs: Option<u64>,
    submit_enabled: bool,
    agents_text: Option<String>,
) -> (r: (String, Option<String>))
    ensures
        r.0@ == system_prompt_of(
            cwd@,
            match max_steps {
                Some(n) => Some(n as nat),
                None => None,
            },
            match time_limit_secs {
                Some(n) => Some(n as nat),
                None => None,
            },
            submit_enabled,
            crate::conversation::opt_text(agents_text),
        ),
        r.1 == agents_text,
{
    let mut prompt = String::new();
    prompt.append(PROMPT_INTRO);
    if submit_enabled {
        prompt.append(SUBMIT_RULE);
    } else {
        prompt.append(ANSWER_RULE);
    }
    prompt.append("\nEnvironment:\n- cwd: ");
    prompt.append(cwd);
    prompt.append("\n- max_steps: ");
    let steps: Option<u64> = match max_steps {
        Some(n) => Some(n as u64),
        None => None,
    };
    append_limit(&mut prompt, steps);
    prompt.append("\n- time_limit_sec: ");
    append_limit(&mut prompt, time_limit_secs);
    prompt.append("\n- network_access: enabled\n- sandbox: none");
    prompt.append(TOOL_LIST);
    if submit_enabled {
        prompt.append(SUBMIT_TOOL_LINE);
    }
    prompt.append(TOOL_NOTES);
    match &agents_text {
        Some(notes) => {
            prompt.append("\n\n");
            prompt.append(notes.as_str());
        },
        None => {},
    }
    assert(prompt@ =~= system_prompt_of(
        cwd@,
        match max_steps {
            Some(n) => Some(n as nat),
            None => None,
        },
        match time_limit_secs {
            Some(n) => Some(n as nat),
            None => None,
        },
        submit_enabled,
        crate::conversation::opt_text(agents_text),
    ));
    (prompt, agents_text)
}

/// The agent instruction files found from the working directory up to the
/// root, nearest first, joined by blank lines; `None` when there are none.
pub open spec fn joined_notes(notes: Seq<Seq<char>>) -> Option<Seq<char>> {
    if notes.len() == 0 {
        None
    } else {
        Some(join_blank(notes))
    }
}

/// `notes` joined with a blank line between each two.
pub open spec fn join_blank(notes: Seq<Seq<char>>) -> Seq<char>
    decreases notes.len(),
{
    if notes.len() <= 1 {
        if notes.len() == 1 {
            notes[0]
        } else {
            Seq::empty()
        }
    } else {
        join_blank(notes.drop_last()) + "\n\n"@ + notes.last()
    }
}

/// Joins the texts of the agent instruction files, nearest first.
pub fn join_agents_notes(notes: &Vec<String>) -> (r: Option<String>)
    ensures
        crate::conversation::opt_text(r) == joined_notes(crate::text::texts(notes@)),
{
    let ghost tv = crate::text::texts(notes@);
    if notes.len() == 0 {
        return None;
    }
    let mut out = notes[0].clone();
    let mut i: usize = 1;
    proof {
        assert(tv.take(1).drop_last() =~= Seq::<Seq<char>>::empty());
    }
    while i < notes.len()
        invariant
            1 <= i <= notes.len(),
            tv == crate::text::texts(notes@),
            out@ == join_blank(tv.take(i as int)),
        decreases notes.len() - i,
    {
        out.append("\n\n");
        out.append(notes[i].as_str());
        assert(tv.take(i + 1).drop_last() =~= tv.take(i as int));
        i = i + 1;
    }
    assert(tv.take(notes.len() as int) =~= tv);
    Some(out)
}

} // verus!
