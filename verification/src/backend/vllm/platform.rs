//! Where vLLM can run.

use crate::text::ascii::{lower, to_lower};
use crate::text::search::{contains_text, has_text};
use crate::text::space::{
    is_word, join, joined, lemma_words_after_word, lemma_words_are_words, split_words, words,
    words_after, word_list,
};
use vstd::prelude::*;

verus! {

/// The system that the program runs on.
#[derive(Debug, Clone, Copy, PartialEq, Eq, Structural)]
pub enum HostSystem {
    Linux,
    Windows,
    Macos,
    Other,
}

/// Where vLLM would run.
#[derive(Debug, Clone, Copy, PartialEq, Eq, Structural)]
pub enum VllmPlatform {
    NativeLinux,
    Wsl,
    NativeWindows,
    Macos,
    Unsupported,
}

/// What is said of vLLM on WSL.
pub open spec fn wsl_text() -> Seq<char> {
    "vLLM is a Linux-native runtime. Your environment appears to be WSL, where vLLM can fail because required GPU memory features such as UVA/CUDA IPC are unavailable. Werk will fall back to Candle CUDA. For best vLLM support use native Linux or a remote vLLM server."@
}

/// What is said of vLLM on WSL.
pub fn wsl_vllm_message() -> (message: &'static str)
    ensures
        message@ == wsl_text(),
{
    "vLLM is a Linux-native runtime. Your environment appears to be WSL, where vLLM can fail because required GPU memory features such as UVA/CUDA IPC are unavailable. Werk will fall back to Candle CUDA. For best vLLM support use native Linux or a remote vLLM server."
}

/// The platform of a system; Linux may run inside WSL.
pub open spec fn platform_of(system: HostSystem, wsl: bool) -> VllmPlatform {
    match system {
        HostSystem::Linux => if wsl {
            VllmPlatform::Wsl
        } else {
            VllmPlatform::NativeLinux
        },
        HostSystem::Windows => VllmPlatform::NativeWindows,
        HostSystem::Macos => VllmPlatform::Macos,
        HostSystem::Other => VllmPlatform::Unsupported,
    }
}

/// The platform of a system; Linux may run inside WSL.
pub fn current_vllm_platform(system: HostSystem, wsl: bool) -> (platform: VllmPlatform)
    ensures
        platform == platform_of(system, wsl),
{
    match system {
        HostSystem::Linux => {
            if wsl {
                VllmPlatform::Wsl
            } else {
                VllmPlatform::NativeLinux
            }
        },
        HostSystem::Windows => VllmPlatform::NativeWindows,
        HostSystem::Macos => VllmPlatform::Macos,
        HostSystem::Other => VllmPlatform::Unsupported,
    }
}

/// Why vLLM cannot run locally on a platform.
pub open spec fn local_rejection(platform: VllmPlatform) -> Option<Seq<char>> {
    match platform {
        VllmPlatform::NativeLinux => None,
        VllmPlatform::Wsl => Some(wsl_text()),
        VllmPlatform::NativeWindows => Some(
            "vLLM is a Linux-native runtime. Native Windows local vLLM is not eligible. Use native Linux or a remote vLLM server."@,
        ),
        VllmPlatform::Macos => Some(
            "vLLM is a Linux-native runtime. Local managed vLLM is not eligible on macOS. Use native Linux or a remote vLLM server."@,
        ),
        VllmPlatform::Unsupported => Some(
            "vLLM is a Linux-native runtime. Local vLLM is not eligible on this platform. Use native Linux or a remote vLLM server."@,
        ),
    }
}

/// The contents of an optional text.
pub open spec fn text_of_option(text: Option<&'static str>) -> Option<Seq<char>> {
    match text {
        Some(text) => Some(text@),
        None => None,
    }
}

/// Why vLLM cannot run locally on a platform.
pub fn local_vllm_platform_rejection(platform: VllmPlatform) -> (reason: Option<&'static str>)
    ensures
        text_of_option(reason) == local_rejection(platform),
{
    match platform {
        VllmPlatform::NativeLinux => None,
        VllmPlatform::Wsl => Some(wsl_vllm_message()),
        VllmPlatform::NativeWindows => Some(
            "vLLM is a Linux-native runtime. Native Windows local vLLM is not eligible. Use native Linux or a remote vLLM server.",
        ),
        VllmPlatform::Macos => Some(
            "vLLM is a Linux-native runtime. Local managed vLLM is not eligible on macOS. Use native Linux or a remote vLLM server.",
        ),
        VllmPlatform::Unsupported => Some(
            "vLLM is a Linux-native runtime. Local vLLM is not eligible on this platform. Use native Linux or a remote vLLM server.",
        ),
    }
}

/// Why vLLM cannot be installed on a platform: on Linux it can, inside WSL too.
pub open spec fn install_rejection(platform: VllmPlatform) -> Option<Seq<char>> {
    if platform == VllmPlatform::NativeLinux || platform == VllmPlatform::Wsl {
        None
    } else {
        local_rejection(platform)
    }
}

/// Why vLLM cannot be installed on a platform.
pub fn managed_vllm_install_rejection(platform: VllmPlatform) -> (reason: Option<&'static str>)
    ensures
        text_of_option(reason) == install_rejection(platform),
{
    match platform {
        VllmPlatform::NativeLinux | VllmPlatform::Wsl => None,
        _ => local_vllm_platform_rejection(platform),
    }
}

/// Where vLLM can run locally it can be installed; WSL alone takes an installation that it
/// cannot be relied on to run.
pub proof fn law_installable_where_runnable(platform: VllmPlatform)
    ensures
        local_rejection(platform) is None ==> install_rejection(platform) is None,
        install_rejection(platform) is None && local_rejection(platform) is Some <==> platform
            == VllmPlatform::Wsl,
{
}

/// Whether the release of a Linux system is one of WSL.
pub open spec fn looks_like_wsl(text: Seq<char>) -> bool {
    contains_text(lower(text), "microsoft"@) || contains_text(lower(text), "wsl"@)
}

/// Whether the release of a Linux system is one of WSL.
pub fn linux_release_looks_like_wsl(text: &str) -> (r: bool)
    ensures
        r == looks_like_wsl(text@),
{
    let lowered = to_lower(text);
    has_text(lowered.as_str(), "microsoft") || has_text(lowered.as_str(), "wsl")
}

/// Whether a Linux system runs inside WSL: its environment says so, or one of its releases does.
pub fn is_wsl_environment(
    distro_is_set: bool,
    interop_is_set: bool,
    kernel_release: Option<&str>,
    kernel_version: Option<&str>,
) -> (r: bool)
    ensures
        r == (distro_is_set || interop_is_set || (kernel_release is Some && looks_like_wsl(
            kernel_release->0@,
        )) || (kernel_version is Some && looks_like_wsl(kernel_version->0@))),
{
    if distro_is_set || interop_is_set {
        return true;
    }
    let by_release = match kernel_release {
        Some(text) => linux_release_looks_like_wsl(text),
        None => false,
    };
    let by_version = match kernel_version {
        Some(text) => linux_release_looks_like_wsl(text),
        None => false,
    };
    by_release || by_version
}

/// Whether a failure of vLLM is of the kind that WSL causes; `lowered` is its message in lower
/// case.
pub open spec fn is_wsl_failure(lowered: Seq<char>) -> bool {
    ||| contains_text(lowered, "uva"@)
    ||| contains_text(lowered, "pin_memory"@)
    ||| contains_text(lowered, "pin memory"@)
    ||| contains_text(lowered, "engine-core"@)
    ||| contains_text(lowered, "engine_core"@)
    ||| contains_text(lowered, "engine core"@)
    ||| contains_text(lowered, "cuda ipc"@)
    ||| contains_text(lowered, "cuda_ipc"@)
    ||| contains_text(lowered, "cudaipc"@)
    ||| contains_text(lowered, "multiprocessing"@) && (contains_text(lowered, "start"@)
        || contains_text(lowered, "spawn"@) || contains_text(lowered, "failed"@))
}

/// Whether a failure of vLLM is of the kind that WSL causes.
pub fn is_wsl_sensitive_vllm_failure(reason: &str) -> (r: bool)
    ensures
        r == is_wsl_failure(lower(reason@)),
{
    let lowered = to_lower(reason);
    let text = lowered.as_str();
    has_text(text, "uva") || has_text(text, "pin_memory") || has_text(text, "pin memory")
        || has_text(text, "engine-core") || has_text(text, "engine_core") || has_text(
        text,
        "engine core",
    ) || has_text(text, "cuda ipc") || has_text(text, "cuda_ipc") || has_text(text, "cudaipc") || (
    has_text(text, "multiprocessing") && (has_text(text, "start") || has_text(text, "spawn")
        || has_text(text, "failed")))
}

/// A message in one line, with single spaces.
pub open spec fn compact(reason: Seq<char>) -> Seq<char> {
    join(words(reason), " "@)
}

/// A message in one line, with single spaces.
pub fn compact_error(reason: &str) -> (text: String)
    ensures
        text@ == compact(reason@),
{
    let parts = split_words(reason);
    joined(&parts, " ")
}

/// What is said when vLLM does not become healthy on WSL, for reasons that WSL causes.
pub open spec fn wsl_failure_text(platform: VllmPlatform, reason: Seq<char>) -> Option<Seq<char>> {
    if platform == VllmPlatform::Wsl && is_wsl_failure(lower(reason)) {
        Some(wsl_text() + "\n\nvLLM health probe failed: "@ + compact(reason))
    } else {
        None
    }
}

/// What is said when vLLM does not become healthy on WSL, for reasons that WSL causes.
pub fn wsl_vllm_health_failure_message(platform: VllmPlatform, reason: &str) -> (message: Option<
    String,
>)
    ensures
        match message {
            Some(message) => wsl_failure_text(platform, reason@) == Some(message@),
            None => wsl_failure_text(platform, reason@) is None,
        },
{
    if platform != VllmPlatform::Wsl || !is_wsl_sensitive_vllm_failure(reason) {
        return None;
    }
    Some(
        wsl_vllm_message().to_string().concat("\n\nvLLM health probe failed: ").concat(
            compact_error(reason).as_str(),
        ),
    )
}

proof fn lemma_words_of_joined(parts: Seq<Seq<char>>, rest: Seq<char>)
    requires
        parts.len() > 0,
        forall|i: int| 0 <= i < parts.len() ==> is_word(#[trigger] parts[i]),
    ensures
        words_after(Seq::empty(), join(parts, " "@) + rest) == parts.drop_last() + words_after(
            parts.last(),
            rest,
        ),
    decreases parts.len(),
{
    let last = parts.last();
    let nothing = Seq::<char>::empty();
    if parts.len() == 1 {
        assert(join(parts, " "@) == parts[0]);
        lemma_words_after_word(nothing, last, rest);
        assert(nothing + last =~= last);
        assert(parts.drop_last() + words_after(last, rest) =~= words_after(last, rest));
    } else {
        let front = parts.drop_last();
        assert forall|i: int| 0 <= i < front.len() implies is_word(#[trigger] front[i]) by {
            assert(is_word(parts[i]));
        }
        let tail = " "@ + last + rest;
        assert(join(parts, " "@) + rest =~= join(front, " "@) + tail);
        lemma_words_of_joined(front, tail);
        reveal_strlit(" ");
        assert(tail[0] == ' ');
        assert(tail.drop_first() =~= last + rest);
        lemma_words_after_word(nothing, last, rest);
        assert(nothing + last =~= last);
        assert(is_word(front.last()));
        assert(words_after(front.last(), tail) == word_list(front.last()) + words_after(last, rest));
        assert(front.drop_last() + (word_list(front.last()) + words_after(last, rest)) =~= front
            + words_after(last, rest));
    }
}

/// A compact message has the words of the message, in order, and compacting it again changes
/// nothing.
pub proof fn law_compacting_keeps_words(reason: Seq<char>)
    ensures
        words(compact(reason)) == words(reason),
        compact(compact(reason)) == compact(reason),
{
    let parts = words(reason);
    let nothing = Seq::<char>::empty();
    lemma_words_are_words(nothing, reason);
    if parts.len() == 0 {
        assert(compact(reason) =~= nothing);
        assert(words(nothing) =~= parts);
    } else {
        lemma_words_of_joined(parts, nothing);
        assert(compact(reason) + nothing =~= compact(reason));
        assert(is_word(parts.last()));
        assert(words_after(parts.last(), nothing) == word_list(parts.last()));
        assert(parts.drop_last() + word_list(parts.last()) =~= parts);
    }
}

/// Only Linux outside WSL runs vLLM locally, and each system is told apart from the others.
pub proof fn law_only_native_linux_runs_vllm(system: HostSystem, wsl: bool)
    ensures
        local_rejection(platform_of(system, wsl)) is None <==> system == HostSystem::Linux && !wsl,
        install_rejection(platform_of(system, wsl)) is None <==> system == HostSystem::Linux,
        platform_of(system, wsl) == VllmPlatform::Wsl <==> system == HostSystem::Linux && wsl,
        platform_of(system, wsl) == VllmPlatform::Macos <==> system == HostSystem::Macos,
        platform_of(system, wsl) == VllmPlatform::NativeWindows <==> system == HostSystem::Windows,
{
}

/// A release that names Microsoft or WSL, in any letter case, is one of WSL, and no other is.
pub proof fn law_wsl_shows_in_the_release(text: Seq<char>)
    ensures
        contains_text(lower(text), "microsoft"@) ==> looks_like_wsl(text),
        contains_text(lower(text), "wsl"@) ==> looks_like_wsl(text),
        !contains_text(lower(text), "microsoft"@) && !contains_text(lower(text), "wsl"@)
            ==> !looks_like_wsl(text),
{
}

/// The names of features that WSL lacks, as failures name them.
pub open spec fn lacking_features() -> Seq<Seq<char>> {
    seq![
        "uva"@,
        "pin_memory"@,
        "pin memory"@,
        "engine-core"@,
        "engine_core"@,
        "engine core"@,
        "cuda ipc"@,
        "cuda_ipc"@,
        "cudaipc"@,
    ]
}

/// What failures say of processes that did not start.
pub open spec fn failed_starts() -> Seq<Seq<char>> {
    seq!["start"@, "spawn"@, "failed"@]
}

/// The advice on WSL is given just on WSL, and just for a failure that names one of the features
/// that WSL lacks, or processes that did not start; it ends with the failure in one line.
pub proof fn law_wsl_advice_is_for_wsl(platform: VllmPlatform, reason: Seq<char>)
    ensures
        ({
            let marks = lacking_features();
            let starts = failed_starts();
            let text = lower(reason);
            let named = (exists|i: int|
                0 <= i < marks.len() && contains_text(text, #[trigger] marks[i])) || (contains_text(
                text,
                "multiprocessing"@,
            ) && exists|i: int|
                0 <= i < starts.len() && contains_text(text, #[trigger] starts[i]));
            wsl_failure_text(platform, reason) is Some <==> platform == VllmPlatform::Wsl && named
        }),
        wsl_failure_text(platform, reason) matches Some(message) ==> message == wsl_text()
            + "\n\nvLLM health probe failed: "@ + compact(reason),
{
    let marks = lacking_features();
    let starts = failed_starts();
    assert(marks[0] == "uva"@ && marks[1] == "pin_memory"@ && marks[2] == "pin memory"@);
    assert(marks[3] == "engine-core"@ && marks[4] == "engine_core"@ && marks[5] == "engine core"@);
    assert(marks[6] == "cuda ipc"@ && marks[7] == "cuda_ipc"@ && marks[8] == "cudaipc"@);
    assert(starts[0] == "start"@ && starts[1] == "spawn"@ && starts[2] == "failed"@);
}

} // verus!
