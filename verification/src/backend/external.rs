//! The backends that run another project's command line program.

use super::args::{flag_with, push_file, push_flag, push_text};
use super::generate::{
    arguments_of, Argument, CommandArg, GenerateRequest, GenerateResponse, GenerateStreamEvent,
    GenerationTimings, Response, StreamPiece,
};
use super::runner::response_result;
use crate::failure::Failure;
use crate::model::{ModelFormat, ModelManifest, ModelStore};
use crate::paths::{
    entry_path, has_parent, is_below, is_beside, is_plain_name, lemma_plain_name, parent_path,
    path_from, path_parts, path_text, shown_path,
};
use crate::process::{output_text, shown_output, CommandOutcome};
use crate::text::bytes::{text_from_utf8, utf8_lossy};
use crate::text::chars::{chars_of, slice_of, text_of};
use crate::text::number::{decimal, decimal_text};
use crate::text::search::{
    contains_text, find_chars, index_of_text, lemma_first_at_is_index, lemma_index_of_text,
    position_of, stands_at,
};
use crate::text::space::{count_words, trim, trimmed, views, words};
use std::path::PathBuf;
use vstd::prelude::*;

verus! {

/// The backend that runs llama.cpp.
#[derive(Debug, Clone)]
pub struct LlamaCppBackend {
    pub store: ModelStore,
    pub executable: PathBuf,
}

/// The backend that runs mlx-lm.
#[derive(Debug, Clone)]
pub struct MlxBackend {
    pub store: ModelStore,
    pub python: PathBuf,
    pub module: String,
}

/// A text cut at the first of the stops, in the order of their list, that it holds, and why it
/// ends there. Empty stops do not count.
pub open spec fn cut_at_stop(text: Seq<char>, stops: Seq<Seq<char>>) -> (Seq<char>, Seq<char>)
    decreases stops.len(),
{
    if stops.len() == 0 {
        (text, "length"@)
    } else if stops[0].len() == 0 {
        cut_at_stop(text, stops.drop_first())
    } else {
        match index_of_text(text, stops[0]) {
            Some(at) => (text.take(at), "stop"@),
            None => cut_at_stop(text, stops.drop_first()),
        }
    }
}

/// Cuts a text at the first of the stops that it holds; gives why the text ends there.
pub fn truncate_at_stop(text: &mut String, stops: &[String]) -> (reason: String)
    ensures
        (final(text)@, reason@) == cut_at_stop(old(text)@, views(stops@)),
{
    let chars = chars_of(text.as_str());
    let ghost all = views(stops@);
    proof {
        assert(all.skip(0) =~= all);
    }
    for i in 0..stops.len()
        invariant
            text@ == old(text)@,
            chars@ == text@,
            all == views(stops@),
            cut_at_stop(text@, all) == cut_at_stop(text@, all.skip(i as int)),
    {
        proof {
            assert(all.skip(i as int).drop_first() =~= all.skip(i + 1));
            assert(all.skip(i as int)[0] == stops@[i as int]@);
            lemma_index_of_text(text@, stops@[i as int]@);
        }
        let stop = chars_of(stops[i].as_str());
        if stop.len() > 0 {
            match find_chars(&chars, &stop) {
                Some(at) => {
                    proof {
                        lemma_first_at_is_index(text@, stop@, at as int);
                    }
                    let kept = slice_of(&chars, 0, at);
                    proof {
                        assert(kept@ =~= text@.take(at as int));
                    }
                    *text = text_of(&kept);
                    return "stop".to_string();
                },
                None => {
                    proof {
                        if index_of_text(text@, stop@) is Some {
                            assert(stands_at(text@, stop@, index_of_text(text@, stop@)->0));
                        }
                    }
                },
            }
        }
    }
    "length".to_string()
}

/// A text that was not cut holds none of the stops. One that was is the part of the text before a
/// stop, and does not hold that stop.
pub proof fn law_cut_text_holds_no_stop(text: Seq<char>, stops: Seq<Seq<char>>)
    ensures
        cut_at_stop(text, stops).1 == "length"@ || cut_at_stop(text, stops).1 == "stop"@,
        cut_at_stop(text, stops).1 == "length"@ ==> cut_at_stop(text, stops).0 == text && forall|
            i: int,
        |
            0 <= i < stops.len() && (#[trigger] stops[i]).len() > 0 ==> !contains_text(
                text,
                stops[i],
            ),
        cut_at_stop(text, stops).1 == "stop"@ ==> exists|i: int|
            0 <= i < stops.len() && (#[trigger] stops[i]).len() > 0 && !contains_text(
                cut_at_stop(text, stops).0,
                stops[i],
            ) && stands_at(text, stops[i], cut_at_stop(text, stops).0.len() as int)
                && cut_at_stop(text, stops).0 == text.take(
                cut_at_stop(text, stops).0.len() as int,
            ),
    decreases stops.len(),
{
    reveal_strlit("length");
    reveal_strlit("stop");
    assert("length"@.len() != "stop"@.len());
    if stops.len() > 0 {
        let rest = stops.drop_first();
        lemma_index_of_text(text, stops[0]);
        if stops[0].len() > 0 && index_of_text(text, stops[0]) is Some {
            let at = index_of_text(text, stops[0])->0;
            let kept = text.take(at);
            assert(stands_at(text, stops[0], at));
            assert(!contains_text(kept, stops[0])) by {
                if contains_text(kept, stops[0]) {
                    let place = choose|place: int| stands_at(kept, stops[0], place);
                    assert(kept.subrange(place, place + stops[0].len()) =~= text.subrange(
                        place,
                        place + stops[0].len(),
                    ));
                    assert(stands_at(text, stops[0], place));
                    assert(!stands_at(text, stops[0], place));
                }
            }
            assert(stops[0].len() > 0);
        } else {
            law_cut_text_holds_no_stop(text, rest);
            let cut = cut_at_stop(text, stops);
            if cut.1 == "length"@ {
                assert forall|i: int| 0 <= i < stops.len() && (#[trigger] stops[i]).len() > 0
                    implies !contains_text(text, stops[i]) by {
                    if i > 0 {
                        assert(rest[i - 1] == stops[i]);
                        assert(rest[i - 1].len() > 0);
                    }
                }
            } else {
                let i = choose|i: int|
                    0 <= i < rest.len() && (#[trigger] rest[i]).len() > 0 && !contains_text(
                        cut.0,
                        rest[i],
                    ) && stands_at(text, rest[i], cut.0.len() as int) && cut.0 == text.take(
                        cut.0.len() as int,
                    );
                assert(stops[i + 1] == rest[i]);
                assert(stops[i + 1].len() > 0);
            }
        }
    }
}

/// The number of words of a text, which stands for the number of its tokens.
pub fn estimate_tokens(text: &str) -> (tokens: usize)
    ensures
        tokens == words(text@).len(),
{
    count_words(text)
}

/// The timings of a program that ran for some time.
pub open spec fn elapsed_timings(elapsed_nanos: u64) -> GenerationTimings {
    GenerationTimings {
        load_nanos: 0,
        warmup_nanos: 0,
        first_token_nanos: 0,
        prompt_nanos: 0,
        decode_nanos: elapsed_nanos,
        total_nanos: elapsed_nanos,
    }
}

/// The timings of a program that ran for some time.
pub fn external_timings(elapsed_nanos: u64) -> (timings: GenerationTimings)
    ensures
        timings == elapsed_timings(elapsed_nanos),
{
    GenerationTimings {
        load_nanos: 0,
        warmup_nanos: 0,
        first_token_nanos: 0,
        prompt_nanos: 0,
        decode_nanos: elapsed_nanos,
        total_nanos: elapsed_nanos,
    }
}

/// The response that a program's text makes.
pub open spec fn text_response(
    prompt: Seq<char>,
    text: Seq<char>,
    finish_reason: Seq<char>,
    elapsed_nanos: u64,
) -> Response {
    Response {
        text,
        prompt_tokens: words(prompt).len() as usize,
        completion_tokens: words(text).len() as usize,
        finish_reason,
        timings: elapsed_timings(elapsed_nanos),
        backend_diagnostics: Seq::empty(),
    }
}

/// The response that a program's text makes.
pub fn external_response(
    prompt: &str,
    text: String,
    finish_reason: String,
    elapsed_nanos: u64,
) -> (response: GenerateResponse)
    ensures
        response@ == text_response(prompt@, text@, finish_reason@, elapsed_nanos),
{
    let prompt_tokens: usize = estimate_tokens(prompt);
    let completion_tokens: usize = estimate_tokens(text.as_str());
    let response = GenerateResponse {
        text,
        prompt_tokens,
        completion_tokens,
        finish_reason,
        timings: external_timings(elapsed_nanos),
        backend_diagnostics: Vec::new(),
    };
    proof {
        assert(response@ =~= text_response(prompt@, text@, finish_reason@, elapsed_nanos));
    }
    response
}

/// Whether a text holds a point.
pub open spec fn has_point(text: Seq<char>) -> bool {
    exists|i: int| 0 <= i < text.len() && #[trigger] text[i] == '.'
}

/// A number without the zeros at the end of its fraction.
pub open spec fn without_zeros(text: Seq<char>) -> Seq<char>
    decreases text.len(),
{
    if text.len() > 0 && has_point(text) && text.last() == '0' {
        without_zeros(text.drop_last())
    } else {
        text
    }
}

/// A number without the zeros at the end of its fraction, and without a point that ends it.
pub open spec fn short_number(fixed: Seq<char>) -> Seq<char> {
    let text = without_zeros(fixed);
    if text.len() > 0 && text.last() == '.' {
        text.drop_last()
    } else {
        text
    }
}

/// A number, given with a fixed number of digits, in its short form.
pub fn format_float(fixed: &str) -> (text: String)
    ensures
        text@ == short_number(fixed@),
{
    let chars = chars_of(fixed);
    let mut end: usize = chars.len();
    let point: usize = position_of(&chars, '.');
    proof {
        assert(fixed@.take(end as int) =~= fixed@);
    }
    while end > 0 && point < end && chars[end - 1] == '0'
        invariant
            chars@ == fixed@,
            end <= chars.len(),
            point <= chars.len(),
            point < chars.len() ==> chars@[point as int] == '.',
            forall|before: int| 0 <= before < point ==> chars@[before] != '.',
            without_zeros(fixed@) == without_zeros(fixed@.take(end as int)),
        decreases end,
    {
        proof {
            let kept = fixed@.take(end as int);
            assert(kept[point as int] == '.');
            assert(kept.drop_last() =~= fixed@.take(end - 1));
        }
        end = end - 1;
    }
    proof {
        let kept = fixed@.take(end as int);
        if end > 0 && has_point(kept) {
            let i = choose|i: int| 0 <= i < kept.len() && #[trigger] kept[i] == '.';
            assert(chars@[i] == '.');
        }
        assert(without_zeros(fixed@) == kept);
    }
    if end > 0 && chars[end - 1] == '.' {
        proof {
            assert(fixed@.take(end as int).drop_last() =~= fixed@.take(end - 1));
        }
        end = end - 1;
    }
    let part = slice_of(&chars, 0, end);
    proof {
        assert(part@ =~= fixed@.take(end as int));
    }
    text_of(&part)
}

/// A number in its short form begins the number as given, and ends before the zeros of its
/// fraction.
pub proof fn law_short_number_ends_in_a_digit_that_counts(fixed: Seq<char>)
    ensures
        has_point(without_zeros(fixed)) ==> without_zeros(fixed).last() != '0',
        short_number(fixed).len() <= fixed.len(),
        short_number(fixed) == fixed.take(short_number(fixed).len() as int),
    decreases fixed.len(),
{
    if fixed.len() > 0 && has_point(fixed) && fixed.last() == '0' {
        law_short_number_ends_in_a_digit_that_counts(fixed.drop_last());
        let text = short_number(fixed);
        assert(text == short_number(fixed.drop_last()));
        assert(fixed.drop_last().take(text.len() as int) =~= fixed.take(text.len() as int));
    } else {
        assert(without_zeros(fixed) == fixed);
        if fixed.len() > 0 && fixed.last() == '.' {
            assert(fixed.drop_last() =~= fixed.take(fixed.len() - 1));
        } else {
            assert(fixed.take(fixed.len() as int) =~= fixed);
        }
    }
}

/// What to do next to find a program.
pub enum ProgramStep {
    /// Find out whether the path is that of a file.
    CheckFile(PathBuf),
    Use(PathBuf),
}

/// Whether a step is the one that follows what is known: the program that is set, unless it is
/// blank; else the one next to this program, where it is a file; else the one by its name.
pub open spec fn is_program_step(
    step: ProgramStep,
    default_name: Seq<char>,
    set: Option<Seq<char>>,
    this_program: Option<PathBuf>,
    sibling_is_file: Option<bool>,
) -> bool {
    if set is Some && trim(set->0).len() > 0 {
        step matches ProgramStep::Use(path) && path_text(path) == set->0
    } else if this_program is Some && has_parent(path_parts(this_program->0)) {
        let program = this_program->0;
        match sibling_is_file {
            None => step matches ProgramStep::CheckFile(path) && is_beside(
                path,
                program,
                seq![default_name],
            ),
            Some(true) => step matches ProgramStep::Use(path) && is_beside(
                path,
                program,
                seq![default_name],
            ),
            Some(false) => step matches ProgramStep::Use(path) && path_text(path) == default_name,
        }
    } else {
        step matches ProgramStep::Use(path) && path_text(path) == default_name
    }
}

/// What to do next to find the program of a backend. `set` is what the environment names.
pub fn backend_program(
    default_name: &str,
    set: Option<&str>,
    this_program: Option<&PathBuf>,
    sibling_is_file: Option<bool>,
) -> (step: ProgramStep)
    requires
        is_plain_name(default_name@),
    ensures
        is_program_step(
            step,
            default_name@,
            match set {
                Some(set) => Some(set@),
                None => None,
            },
            match this_program {
                Some(program) => Some(*program),
                None => None,
            },
            sibling_is_file,
        ),
{
    match set {
        Some(set) => {
            if !trimmed(set).as_str().is_empty() {
                return ProgramStep::Use(path_from(set));
            }
        },
        None => {},
    }
    match this_program {
        Some(program) => match parent_path(program) {
            Some(dir) => {
                let sibling = entry_path(&dir, default_name);
                match sibling_is_file {
                    None => {
                        return ProgramStep::CheckFile(sibling);
                    },
                    Some(is_file) => {
                        if is_file {
                            return ProgramStep::Use(sibling);
                        }
                    },
                }
            },
            None => {},
        },
        None => {},
    }
    ProgramStep::Use(path_from(default_name))
}

/// The file name of llama.cpp's program.
pub fn default_llama_cli(windows: bool) -> (name: &'static str)
    ensures
        name@ == (if windows {
            "llama-cli.exe"@
        } else {
            "llama-cli"@
        }),
        is_plain_name(name@),
{
    proof {
        reveal_strlit("llama-cli.exe");
        lemma_plain_name("llama-cli.exe"@);
        reveal_strlit("llama-cli");
        lemma_plain_name("llama-cli"@);
    }
    if windows {
        "llama-cli.exe"
    } else {
        "llama-cli"
    }
}

/// The file name of Python.
pub fn default_python(windows: bool) -> (name: &'static str)
    ensures
        name@ == (if windows {
            "python.exe"@
        } else {
            "python3"@
        }),
        is_plain_name(name@),
{
    proof {
        reveal_strlit("python.exe");
        lemma_plain_name("python.exe"@);
        reveal_strlit("python3");
        lemma_plain_name("python3"@);
    }
    if windows {
        "python.exe"
    } else {
        "python3"
    }
}

/// An image, as an argument.
pub open spec fn image_arguments(images: Seq<Seq<char>>) -> Seq<Argument>
    decreases images.len(),
{
    if images.len() == 0 {
        Seq::empty()
    } else {
        image_arguments(images.drop_last()) + flag_with("--image"@, Some(images.last()))
    }
}

fn push_images(args: &mut Vec<CommandArg>, images: &[String])
    ensures
        arguments_of(final(args)@) == arguments_of(old(args)@) + image_arguments(views(images@)),
{
    let ghost before = arguments_of(args@);
    let ghost all = views(images@);
    proof {
        assert(before + image_arguments(all.take(0)) =~= before);
    }
    for i in 0..images.len()
        invariant
            all == views(images@),
            arguments_of(args@) == before + image_arguments(all.take(i as int)),
    {
        proof {
            assert(all.take(i + 1).drop_last() =~= all.take(i as int));
            assert(all.take(i + 1).last() == images@[i as int]@);
            let done = image_arguments(all.take(i as int));
            let now = flag_with("--image"@, Some(images@[i as int]@));
            assert((before + done) + now =~= before + (done + now));
        }
        push_flag(args, "--image", images[i].as_str());
    }
    proof {
        assert(all.take(images.len() as int) =~= all);
    }
}

/// What to do next to make the command of a generation.
pub enum CommandStep {
    Fail(Failure),
    /// Ask for the path of this file of the model.
    AskFile(String),
    /// Find out whether the path is that of a directory.
    CheckDirectory(PathBuf),
    Run { program: PathBuf, args: Vec<CommandArg> },
}

/// The arguments of llama.cpp's program.
pub open spec fn llama_arguments(model: PathBuf, request: GenerateRequest) -> Seq<Argument> {
    seq![
        Argument::Text("-m"@),
        Argument::File(model),
        Argument::Text("-p"@),
        Argument::Text(request.prompt@),
        Argument::Text("-n"@),
        Argument::Text(decimal(request.max_tokens as nat)),
        Argument::Text("-ngl"@),
        Argument::Text("999"@),
        Argument::Text("--no-display-prompt"@),
    ] + flag_with(
        "--temp"@,
        match request.temperature {
            Some(number) => Some(short_number(number.fixed@)),
            None => None,
        },
    ) + flag_with(
        "--top-p"@,
        match request.top_p {
            Some(number) => Some(short_number(number.fixed@)),
            None => None,
        },
    ) + flag_with(
        "--seed"@,
        match request.seed {
            Some(seed) => Some(decimal(seed as nat)),
            None => None,
        },
    ) + image_arguments(views(request.image_urls@))
}

/// Whether a step is the one that makes the command of llama.cpp.
pub open spec fn is_llama_step(
    step: CommandStep,
    executable: PathBuf,
    manifest: ModelManifest,
    request: GenerateRequest,
    model_file: Option<PathBuf>,
) -> bool {
    if manifest.format != ModelFormat::Gguf {
        step matches CommandStep::Fail(failure) && failure@ == seq![
            "vulkan backend uses llama.cpp and currently supports GGUF models only"@,
        ]
    } else {
        match manifest.model_path {
            None => step matches CommandStep::Fail(failure) && failure@ == seq![
                "GGUF manifest has no model_path"@,
            ],
            Some(file) => match model_file {
                None => step matches CommandStep::AskFile(asked) && asked@ == file@,
                Some(model) => step matches CommandStep::Run { program, args } && program
                    == executable && arguments_of(args@) == llama_arguments(model, request),
            },
        }
    }
}

/// The arguments of mlx-lm.
pub open spec fn mlx_arguments(
    module: Seq<char>,
    model_dir: PathBuf,
    request: GenerateRequest,
) -> Seq<Argument> {
    seq![
        Argument::Text("-m"@),
        Argument::Text(module),
        Argument::Text("--model"@),
        Argument::File(model_dir),
        Argument::Text("--prompt"@),
        Argument::Text(request.prompt@),
        Argument::Text("--max-tokens"@),
        Argument::Text(decimal(request.max_tokens as nat)),
    ] + flag_with(
        "--temp"@,
        match request.temperature {
            Some(number) => Some(short_number(number.fixed@)),
            None => None,
        },
    ) + image_arguments(views(request.image_urls@))
}

/// Whether a step is the one that makes the command of mlx-lm; `files` is the directory of the
/// model's files.
pub open spec fn is_mlx_step(
    step: CommandStep,
    backend: MlxBackend,
    manifest: ModelManifest,
    request: GenerateRequest,
    files: PathBuf,
    files_are_there: Option<bool>,
) -> bool {
    if manifest.format != ModelFormat::Mlx && manifest.format != ModelFormat::SafeTensors {
        step matches CommandStep::Fail(failure) && failure@ == seq![
            "mlx backend supports MLX or Hugging Face-style safetensors model directories"@,
        ]
    } else {
        match files_are_there {
            None => step matches CommandStep::CheckDirectory(dir) && dir == files,
            Some(false) => step matches CommandStep::Fail(failure) && failure@ == seq![
                "model files directory does not exist: "@ + path_text(files),
            ],
            Some(true) => step matches CommandStep::Run { program, args } && program
                == backend.python && arguments_of(args@) == mlx_arguments(
                backend.module@,
                files,
                request,
            ),
        }
    }
}

/// What came of running a program: a response, or what went wrong. `failed` begins the message
/// of a program that fails.
pub open spec fn program_response(
    program: PathBuf,
    failed: Seq<char>,
    request: GenerateRequest,
    outcome: CommandOutcome,
    elapsed_nanos: u64,
) -> Result<Response, Seq<Seq<char>>> {
    match outcome {
        CommandOutcome::Failed(reason) => Err(
            seq!["failed to execute "@ + path_text(program), reason@],
        ),
        CommandOutcome::Finished(output) => if !output.success {
            Err(seq![failed + ": "@ + output_text(output.stderr@)])
        } else {
            let cut = cut_at_stop(utf8_lossy(output.stdout@), views(request.stop@));
            Ok(text_response(request.prompt@, trim(cut.0), cut.1, elapsed_nanos))
        },
    }
}

/// Reads what came of running a program.
pub fn read_program(
    program: &PathBuf,
    failed: &str,
    request: &GenerateRequest,
    outcome: &CommandOutcome,
    elapsed_nanos: u64,
) -> (result: Result<GenerateResponse, Failure>)
    ensures
        response_result(result) == program_response(
            *program,
            failed@,
            *request,
            *outcome,
            elapsed_nanos,
        ),
{
    match outcome {
        CommandOutcome::Failed(reason) => {
            let message = "failed to execute ".to_string().concat(shown_path(program).as_str());
            Err(Failure::because(message, reason.clone()))
        },
        CommandOutcome::Finished(output) => {
            if !output.success {
                let message = failed.to_string().concat(": ").concat(
                    shown_output(&output.stderr).as_str(),
                );
                return Err(Failure::new(message));
            }
            let mut text = text_from_utf8(&output.stdout);
            let finish_reason = truncate_at_stop(&mut text, &request.stop);
            Ok(
                external_response(
                    request.prompt.as_str(),
                    trimmed(text.as_str()),
                    finish_reason,
                    elapsed_nanos,
                ),
            )
        },
    }
}

/// What a probe of a program says: what works, or what went wrong. `hint` follows the message
/// that the program could not be run, `broken` begins that of a program that fails.
pub open spec fn probe_result(
    program: PathBuf,
    hint: Seq<char>,
    broken: Seq<char>,
    works: Seq<char>,
    outcome: CommandOutcome,
) -> Result<Seq<char>, Seq<Seq<char>>> {
    match outcome {
        CommandOutcome::Failed(reason) => Err(
            seq!["failed to execute "@ + path_text(program) + hint, reason@],
        ),
        CommandOutcome::Finished(output) => if output.success {
            Ok(works)
        } else {
            Err(seq![broken + ": "@ + output_text(output.stderr@)])
        },
    }
}

/// The result of a probe as a model.
pub open spec fn probe_view(result: Result<String, Failure>) -> Result<Seq<char>, Seq<Seq<char>>> {
    match result {
        Ok(text) => Ok(text@),
        Err(failure) => Err(failure@),
    }
}

fn read_probe(
    program: &PathBuf,
    hint: &str,
    broken: String,
    works: String,
    outcome: &CommandOutcome,
) -> (result: Result<String, Failure>)
    ensures
        probe_view(result) == probe_result(*program, hint@, broken@, works@, *outcome),
{
    match outcome {
        CommandOutcome::Failed(reason) => {
            let message = "failed to execute ".to_string().concat(
                shown_path(program).as_str(),
            ).concat(hint);
            Err(Failure::because(message, reason.clone()))
        },
        CommandOutcome::Finished(output) => {
            if output.success {
                Ok(works)
            } else {
                Err(
                    Failure::new(
                        broken.concat(": ").concat(shown_output(&output.stderr).as_str()),
                    ),
                )
            }
        },
    }
}

impl LlamaCppBackend {
    /// The backend that runs the program on the models of a store.
    pub fn new_vulkan(store: ModelStore, executable: PathBuf) -> (backend: LlamaCppBackend)
        ensures
            backend.store == store,
            backend.executable == executable,
    {
        LlamaCppBackend { store, executable }
    }

    /// What came of asking the program for help, which is done with
    /// [`crate::process::help_args`].
    pub fn probe_vulkan(executable: &PathBuf, outcome: &CommandOutcome) -> (result: Result<
        String,
        Failure,
    >)
        ensures
            probe_view(result) == probe_result(
                *executable,
                "; set WERK_LLAMA_CLI to a llama.cpp Vulkan llama-cli binary"@,
                path_text(*executable) + " --help failed"@,
                "llama.cpp CLI at "@ + path_text(*executable),
                *outcome,
            ),
    {
        let shown = shown_path(executable);
        read_probe(
            executable,
            "; set WERK_LLAMA_CLI to a llama.cpp Vulkan llama-cli binary",
            shown_path(executable).concat(" --help failed"),
            "llama.cpp CLI at ".to_string().concat(shown.as_str()),
            outcome,
        )
    }

    /// What to do next to make the command of a generation.
    pub fn command_for(
        &self,
        manifest: &ModelManifest,
        request: &GenerateRequest,
        model_file: Option<&PathBuf>,
    ) -> (step: CommandStep)
        ensures
            is_llama_step(
                step,
                self.executable,
                *manifest,
                *request,
                match model_file {
                    Some(file) => Some(*file),
                    None => None,
                },
            ),
    {
        if manifest.format != ModelFormat::Gguf {
            return CommandStep::Fail(
                Failure::new(
                    "vulkan backend uses llama.cpp and currently supports GGUF models only".to_string(),
                ),
            );
        }
        let file = match &manifest.model_path {
            Some(file) => file,
            None => {
                return CommandStep::Fail(
                    Failure::new("GGUF manifest has no model_path".to_string()),
                );
            },
        };
        let model = match model_file {
            Some(model) => model,
            None => {
                return CommandStep::AskFile(file.clone());
            },
        };
        let mut args: Vec<CommandArg> = Vec::new();
        push_text(&mut args, "-m");
        push_file(&mut args, model);
        push_flag(&mut args, "-p", request.prompt.as_str());
        push_flag(&mut args, "-n", decimal_text(request.max_tokens as u64).as_str());
        push_flag(&mut args, "-ngl", "999");
        push_text(&mut args, "--no-display-prompt");
        match &request.temperature {
            Some(number) => push_flag(
                &mut args,
                "--temp",
                format_float(number.fixed.as_str()).as_str(),
            ),
            None => {},
        }
        match &request.top_p {
            Some(number) => push_flag(
                &mut args,
                "--top-p",
                format_float(number.fixed.as_str()).as_str(),
            ),
            None => {},
        }
        match request.seed {
            Some(seed) => push_flag(&mut args, "--seed", decimal_text(seed).as_str()),
            None => {},
        }
        push_images(&mut args, &request.image_urls);
        proof {
            assert(arguments_of(args@) =~= llama_arguments(*model, *request));
        }
        CommandStep::Run { program: self.executable.clone(), args }
    }

    /// What is said when the program fails.
    pub fn failed_message() -> (message: &'static str)
        ensures
            message@ == "llama.cpp generation failed"@,
    {
        "llama.cpp generation failed"
    }

    /// Reads what came of running the program.
    pub fn generate(
        &self,
        request: &GenerateRequest,
        outcome: &CommandOutcome,
        elapsed_nanos: u64,
    ) -> (result: Result<GenerateResponse, Failure>)
        ensures
            response_result(result) == program_response(
                self.executable,
                "llama.cpp generation failed"@,
                *request,
                *outcome,
                elapsed_nanos,
            ),
    {
        read_program(
            &self.executable,
            LlamaCppBackend::failed_message(),
            request,
            outcome,
            elapsed_nanos,
        )
    }
}

impl MlxBackend {
    /// The backend that runs a module of Python on the models of a store: the module that is set,
    /// else the one of mlx-lm.
    pub fn new(store: ModelStore, python: PathBuf, set_module: Option<String>) -> (backend:
        MlxBackend)
        ensures
            backend.store == store,
            backend.python == python,
            backend.module@ == (match set_module {
                Some(module) => module@,
                None => "mlx_lm.generate"@,
            }),
    {
        let module = match set_module {
            Some(module) => module,
            None => "mlx_lm.generate".to_string(),
        };
        MlxBackend { store, python, module }
    }

    /// The arguments by which a Python shows that it can import mlx-lm.
    pub fn probe_args() -> (args: Vec<String>)
        ensures
            views(args@) == seq!["-c"@, "import mlx_lm"@],
    {
        let args: Vec<String> = vec!["-c".to_string(), "import mlx_lm".to_string()];
        proof {
            assert(views(args@) =~= seq!["-c"@, "import mlx_lm"@]);
        }
        args
    }

    /// What came of importing mlx-lm. The Python is run with [`MlxBackend::probe_args`].
    pub fn probe(python: &PathBuf, outcome: &CommandOutcome) -> (result: Result<String, Failure>)
        ensures
            probe_view(result) == probe_result(
                *python,
                "; set WERK_MLX_PYTHON to a Python with mlx-lm installed"@,
                "mlx-lm is not importable with "@ + path_text(*python),
                "mlx-lm via "@ + path_text(*python),
                *outcome,
            ),
    {
        let shown = shown_path(python);
        read_probe(
            python,
            "; set WERK_MLX_PYTHON to a Python with mlx-lm installed",
            "mlx-lm is not importable with ".to_string().concat(shown.as_str()),
            "mlx-lm via ".to_string().concat(shown.as_str()),
            outcome,
        )
    }

    /// The directory of the files of the model whose directory is `model_dir`.
    pub fn files_dir(model_dir: &PathBuf) -> (files: PathBuf)
        ensures
            is_below(files, *model_dir, seq!["files"@]),
    {
        proof {
            reveal_strlit("files");
            lemma_plain_name("files"@);
        }
        entry_path(model_dir, "files")
    }

    /// What to do next to make the command of a generation; `files` is the directory of the
    /// model's files.
    pub fn command_for(
        &self,
        manifest: &ModelManifest,
        request: &GenerateRequest,
        files: &PathBuf,
        files_are_there: Option<bool>,
    ) -> (step: CommandStep)
        ensures
            is_mlx_step(step, *self, *manifest, *request, *files, files_are_there),
    {
        if manifest.format != ModelFormat::Mlx && manifest.format != ModelFormat::SafeTensors {
            return CommandStep::Fail(
                Failure::new(
                    "mlx backend supports MLX or Hugging Face-style safetensors model directories".to_string(),
                ),
            );
        }
        match files_are_there {
            None => {
                return CommandStep::CheckDirectory(files.clone());
            },
            Some(there) => {
                if !there {
                    let message = "model files directory does not exist: ".to_string().concat(
                        shown_path(files).as_str(),
                    );
                    return CommandStep::Fail(Failure::new(message));
                }
            },
        }
        let mut args: Vec<CommandArg> = Vec::new();
        push_flag(&mut args, "-m", self.module.as_str());
        push_text(&mut args, "--model");
        push_file(&mut args, files);
        push_flag(&mut args, "--prompt", request.prompt.as_str());
        push_flag(&mut args, "--max-tokens", decimal_text(request.max_tokens as u64).as_str());
        match &request.temperature {
            Some(number) => push_flag(
                &mut args,
                "--temp",
                format_float(number.fixed.as_str()).as_str(),
            ),
            None => {},
        }
        push_images(&mut args, &request.image_urls);
        proof {
            assert(arguments_of(args@) =~= mlx_arguments(self.module@, *files, *request));
        }
        CommandStep::Run { program: self.python.clone(), args }
    }

    /// Reads what came of running the module.
    pub fn generate(
        &self,
        request: &GenerateRequest,
        outcome: &CommandOutcome,
        elapsed_nanos: u64,
    ) -> (result: Result<GenerateResponse, Failure>)
        ensures
            response_result(result) == program_response(
                self.python,
                "mlx generation failed"@,
                *request,
                *outcome,
                elapsed_nanos,
            ),
    {
        read_program(&self.python, "mlx generation failed", request, outcome, elapsed_nanos)
    }
}

/// What has happened to a program whose output is streamed.
pub enum StreamingEvent {
    /// It could not be started, for this reason.
    NotStarted(String),
    /// Its output could not be captured.
    NoOutput,
    /// Bytes of its output; none at the end.
    Output(Vec<u8>),
    /// Its output could not be read, for this reason.
    NotRead(String),
    /// It could not be waited for, for this reason.
    NotWaitedFor(String),
    Ended { success: bool, stderr: String, elapsed_nanos: u64 },
}

/// What to do next with a program whose output is streamed.
pub enum StreamingStep {
    Fail(Failure),
    /// Send a piece of text, and read on.
    Send(GenerateStreamEvent),
    /// The output is at its end: wait for the program.
    AwaitEnd,
    /// Send the last piece.
    Finish(GenerateStreamEvent),
}

/// The output of a program so far.
#[derive(Debug, Clone)]
pub struct StreamingRun {
    pub text: String,
}

/// The output after an event.
pub open spec fn streamed_text(text: Seq<char>, event: StreamingEvent) -> Seq<char> {
    match event {
        StreamingEvent::Output(bytes) => if bytes@.len() > 0 {
            text + utf8_lossy(bytes@)
        } else {
            text
        },
        _ => text,
    }
}

/// How the stream of a program's output ends.
pub open spec fn streaming_end(
    request: GenerateRequest,
    text: Seq<char>,
    elapsed_nanos: u64,
) -> StreamPiece {
    let cut = cut_at_stop(text, views(request.stop@));
    StreamPiece::End(
        Response {
            text: Seq::empty(),
            ..text_response(request.prompt@, cut.0, cut.1, elapsed_nanos)
        },
    )
}

/// Whether a step is the one that follows an event; `text` is the output before it.
pub open spec fn is_streaming_step(
    step: StreamingStep,
    request: GenerateRequest,
    failed: Seq<char>,
    text: Seq<char>,
    event: StreamingEvent,
) -> bool {
    match event {
        StreamingEvent::NotStarted(reason) => step matches StreamingStep::Fail(failure) && failure@
            == seq!["failed to spawn external backend process"@, reason@],
        StreamingEvent::NoOutput => step matches StreamingStep::Fail(failure) && failure@ == seq![
            "failed to capture external backend stdout"@,
        ],
        StreamingEvent::NotRead(reason) => step matches StreamingStep::Fail(failure) && failure@
            == seq!["failed to read external backend stdout"@, reason@],
        StreamingEvent::NotWaitedFor(reason) => step matches StreamingStep::Fail(failure)
            && failure@ == seq!["failed to wait for external backend"@, reason@],
        StreamingEvent::Output(bytes) => if bytes@.len() > 0 {
            step matches StreamingStep::Send(piece) && piece@ == StreamPiece::Text(
                utf8_lossy(bytes@),
            )
        } else {
            step is AwaitEnd
        },
        StreamingEvent::Ended { success, stderr, elapsed_nanos } => if success {
            step matches StreamingStep::Finish(piece) && piece@ == streaming_end(
                request,
                text,
                elapsed_nanos,
            )
        } else {
            step matches StreamingStep::Fail(failure) && failure@ == seq![
                failed + ": "@ + trim(stderr@),
            ]
        },
    }
}

impl StreamingRun {
    /// Nothing has come out yet.
    pub fn new() -> (run: StreamingRun)
        ensures
            run.text@.len() == 0,
    {
        StreamingRun { text: String::new() }
    }

    /// What to do next, now that something has happened to the program. `failed` begins the
    /// message of a program that fails.
    pub fn run_streaming_command(
        &mut self,
        request: &GenerateRequest,
        failed: &str,
        event: StreamingEvent,
    ) -> (step: StreamingStep)
        ensures
            is_streaming_step(step, *request, failed@, old(self).text@, event),
            final(self).text@ == streamed_text(old(self).text@, event),
    {
        match event {
            StreamingEvent::NotStarted(reason) => StreamingStep::Fail(
                Failure::because("failed to spawn external backend process".to_string(), reason),
            ),
            StreamingEvent::NoOutput => StreamingStep::Fail(
                Failure::new("failed to capture external backend stdout".to_string()),
            ),
            StreamingEvent::NotRead(reason) => StreamingStep::Fail(
                Failure::because("failed to read external backend stdout".to_string(), reason),
            ),
            StreamingEvent::NotWaitedFor(reason) => StreamingStep::Fail(
                Failure::because("failed to wait for external backend".to_string(), reason),
            ),
            StreamingEvent::Output(bytes) => {
                if bytes.len() == 0 {
                    return StreamingStep::AwaitEnd;
                }
                let chunk = text_from_utf8(&bytes);
                self.text.append(chunk.as_str());
                StreamingStep::Send(GenerateStreamEvent::TextChunk(chunk))
            },
            StreamingEvent::Ended { success, stderr, elapsed_nanos } => {
                if !success {
                    let message = failed.to_string().concat(": ").concat(
                        trimmed(stderr.as_str()).as_str(),
                    );
                    return StreamingStep::Fail(Failure::new(message));
                }
                let mut text = self.text.clone();
                let finish_reason = truncate_at_stop(&mut text, &request.stop);
                let end = external_response(
                    request.prompt.as_str(),
                    text,
                    finish_reason,
                    elapsed_nanos,
                ).into_end();
                proof {
                    assert(end@->End_0 =~= streaming_end(
                        *request,
                        old(self).text@,
                        elapsed_nanos,
                    )->End_0);
                }
                StreamingStep::Finish(end)
            },
        }
    }
}

/// The output after a list of events.
pub open spec fn streamed_through(text: Seq<char>, events: Seq<StreamingEvent>) -> Seq<char>
    decreases events.len(),
{
    if events.len() == 0 {
        text
    } else {
        streamed_text(streamed_through(text, events.drop_last()), events.last())
    }
}

/// The text that is sent while a list of events happens.
pub open spec fn sent_text(events: Seq<StreamingEvent>) -> Seq<char>
    decreases events.len(),
{
    if events.len() == 0 {
        Seq::empty()
    } else {
        sent_text(events.drop_last()) + (match events.last() {
            StreamingEvent::Output(bytes) => if bytes@.len() > 0 {
                utf8_lossy(bytes@)
            } else {
                Seq::empty()
            },
            _ => Seq::empty(),
        })
    }
}

/// The text that the end of a stream counts is the text that was sent, in order.
pub proof fn law_stream_counts_what_was_sent(events: Seq<StreamingEvent>)
    ensures
        streamed_through(Seq::empty(), events) == sent_text(events),
    decreases events.len(),
{
    if events.len() > 0 {
        law_stream_counts_what_was_sent(events.drop_last());
        let before = sent_text(events.drop_last());
        assert(before + Seq::<char>::empty() =~= before);
    }
}

/// The failure of a stream whose receiver is gone.
pub fn receiver_closed(reason: &str) -> (failure: Failure)
    ensures
        failure@ == seq!["stream receiver closed: "@ + reason@],
{
    Failure::new("stream receiver closed: ".to_string().concat(reason))
}

proof fn lemma_image_argument(images: Seq<Seq<char>>, k: int)
    requires
        0 <= k < images.len(),
    ensures
        image_arguments(images).len() == 2 * images.len(),
        image_arguments(images)[2 * k] == Argument::Text("--image"@),
        image_arguments(images)[2 * k + 1] == Argument::Text(images[k]),
    decreases images.len(),
{
    let rest = images.drop_last();
    lemma_image_arguments_len(rest);
    if k < rest.len() {
        lemma_image_argument(rest, k);
        assert(rest[k] == images[k]);
    }
}

proof fn lemma_image_arguments_len(images: Seq<Seq<char>>)
    ensures
        image_arguments(images).len() == 2 * images.len(),
    decreases images.len(),
{
    if images.len() > 0 {
        lemma_image_arguments_len(images.drop_last());
    }
}

/// llama.cpp is told the model, the prompt and the limit on tokens, to compute all layers on the
/// accelerator and not to repeat the prompt. After that come the sampling where the request gives
/// it, and the images.
pub proof fn law_llama_is_told_the_request(model: PathBuf, request: GenerateRequest)
    ensures
        ({
            let args = llama_arguments(model, request);
            let heat = if request.temperature is Some {
                2int
            } else {
                0
            };
            let nucleus = if request.top_p is Some {
                2int
            } else {
                0
            };
            let seed = if request.seed is Some {
                2int
            } else {
                0
            };
            &&& args.len() == 9 + heat + nucleus + seed + 2 * request.image_urls@.len()
            &&& args[0] == Argument::Text("-m"@) && args[1] == Argument::File(model)
            &&& args[2] == Argument::Text("-p"@) && args[3] == Argument::Text(request.prompt@)
            &&& args[4] == Argument::Text("-n"@) && args[5] == Argument::Text(
                decimal(request.max_tokens as nat),
            )
            &&& args[6] == Argument::Text("-ngl"@) && args[7] == Argument::Text("999"@)
            &&& args[8] == Argument::Text("--no-display-prompt"@)
            &&& request.temperature is Some ==> args[9] == Argument::Text("--temp"@) && args[10]
                == Argument::Text(short_number(request.temperature->0.fixed@))
            &&& request.top_p is Some ==> args[9 + heat] == Argument::Text("--top-p"@) && args[10
                + heat] == Argument::Text(short_number(request.top_p->0.fixed@))
            &&& request.seed is Some ==> args[9 + heat + nucleus] == Argument::Text("--seed"@)
                && args[10 + heat + nucleus] == Argument::Text(decimal(request.seed->0 as nat))
        }),
{
    lemma_image_arguments_len(views(request.image_urls@));
}

/// mlx-lm is told the module, the model, the prompt and the limit on tokens; after that the
/// temperature where the request gives it, and the images.
pub proof fn law_mlx_is_told_the_request(
    module: Seq<char>,
    model_dir: PathBuf,
    request: GenerateRequest,
)
    ensures
        ({
            let args = mlx_arguments(module, model_dir, request);
            let heat = if request.temperature is Some {
                2int
            } else {
                0
            };
            &&& args.len() == 8 + heat + 2 * request.image_urls@.len()
            &&& args[0] == Argument::Text("-m"@) && args[1] == Argument::Text(module)
            &&& args[2] == Argument::Text("--model"@) && args[3] == Argument::File(model_dir)
            &&& args[4] == Argument::Text("--prompt"@) && args[5] == Argument::Text(request.prompt@)
            &&& args[6] == Argument::Text("--max-tokens"@) && args[7] == Argument::Text(
                decimal(request.max_tokens as nat),
            )
            &&& request.temperature is Some ==> args[8] == Argument::Text("--temp"@) && args[9]
                == Argument::Text(short_number(request.temperature->0.fixed@))
        }),
{
    lemma_image_arguments_len(views(request.image_urls@));
}

/// All images of a request are told last, each after its flag and in their order.
pub proof fn law_images_are_told_in_order(
    model: PathBuf,
    module: Seq<char>,
    request: GenerateRequest,
    k: int,
)
    requires
        0 <= k < request.image_urls@.len(),
    ensures
        ({
            let args = llama_arguments(model, request);
            let at = args.len() - 2 * (request.image_urls@.len() - k);
            &&& args[at] == Argument::Text("--image"@)
            &&& args[at + 1] == Argument::Text(request.image_urls@[k]@)
        }),
        ({
            let args = mlx_arguments(module, model, request);
            let at = args.len() - 2 * (request.image_urls@.len() - k);
            &&& args[at] == Argument::Text("--image"@)
            &&& args[at + 1] == Argument::Text(request.image_urls@[k]@)
        }),
{
    let images = views(request.image_urls@);
    let told = image_arguments(images);
    lemma_image_argument(images, k);
    assert(images[k] == request.image_urls@[k]@);
    let llama = llama_arguments(model, request);
    let mlx = mlx_arguments(module, model, request);
    assert(llama.skip(llama.len() - told.len()) =~= told);
    assert(mlx.skip(mlx.len() - told.len()) =~= told);
    assert(llama.skip(llama.len() - told.len())[2 * k] == told[2 * k]);
    assert(llama.skip(llama.len() - told.len())[2 * k + 1] == told[2 * k + 1]);
    assert(mlx.skip(mlx.len() - told.len())[2 * k] == told[2 * k]);
    assert(mlx.skip(mlx.len() - told.len())[2 * k + 1] == told[2 * k + 1]);
}

/// A program's output is the response, cut at a stop and without white space at either end, and
/// only where the program ran and succeeded. Words are counted, and the time is that of the run.
pub proof fn law_output_is_the_response(
    program: PathBuf,
    failed: Seq<char>,
    request: GenerateRequest,
    outcome: CommandOutcome,
    elapsed_nanos: u64,
)
    ensures
        ({
            let result = program_response(program, failed, request, outcome, elapsed_nanos);
            let cut = cut_at_stop(
                utf8_lossy(outcome->Finished_0.stdout@),
                views(request.stop@),
            );
            &&& result is Ok <==> outcome is Finished && outcome->Finished_0.success
            &&& result matches Ok(response) ==> {
                &&& response.text == trim(cut.0)
                &&& response.finish_reason == cut.1
                &&& words(request.prompt@).len() <= usize::MAX ==> response.prompt_tokens == words(
                    request.prompt@,
                ).len()
                &&& words(response.text).len() <= usize::MAX ==> response.completion_tokens
                    == words(response.text).len()
                &&& response.timings.decode_nanos == elapsed_nanos
                &&& response.timings.total_nanos == elapsed_nanos
                &&& response.timings.load_nanos == 0
                &&& response.timings.prompt_nanos == 0
            }
        }),
{
}

/// Each backend runs its own program on the model that was found, and takes only its own formats.
pub proof fn law_programs_take_their_formats(
    step: CommandStep,
    executable: PathBuf,
    manifest: ModelManifest,
    request: GenerateRequest,
    model_file: Option<PathBuf>,
)
    requires
        is_llama_step(step, executable, manifest, request, model_file),
    ensures
        manifest.format != ModelFormat::Gguf || manifest.model_path is None ==> step is Fail,
        manifest.format == ModelFormat::Gguf && manifest.model_path is Some && model_file is Some
            ==> (step matches CommandStep::Run { program, args } && program == executable
            && arguments_of(args@)[1] == Argument::File(model_file->0)),
        step matches CommandStep::AskFile(file) ==> manifest.model_path is Some && file@
            == manifest.model_path->0@,
{
}

/// A program that is set is used. Else the one beside this program is used where it is a file, and
/// the name alone where it is not or where there is no such place.
pub proof fn law_set_program_is_used(
    step: ProgramStep,
    default_name: Seq<char>,
    set: Option<Seq<char>>,
    this_program: Option<PathBuf>,
    sibling_is_file: Option<bool>,
)
    requires
        is_program_step(step, default_name, set, this_program, sibling_is_file),
    ensures
        ({
            let is_set = set is Some && trim(set->0).len() > 0;
            let has_place = this_program is Some && has_parent(path_parts(this_program->0));
            &&& is_set ==> step is Use && path_text(step->Use_0) == set->0
            &&& !is_set && has_place && sibling_is_file == Some(true) ==> step is Use && is_beside(
                step->Use_0,
                this_program->0,
                seq![default_name],
            )
            &&& !is_set && (!has_place || sibling_is_file == Some(false)) ==> step is Use
                && path_text(step->Use_0) == default_name
            &&& step is CheckFile <==> !is_set && has_place && sibling_is_file is None
        }),
{
}

} // verus!
