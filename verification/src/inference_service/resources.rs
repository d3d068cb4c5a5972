//! The memory and the accelerator of the machine.

use crate::inference::planner::{accelerator_goes_by, RuntimeAccelerator};
use crate::text::ascii::{lower, to_lower};
use crate::text::chars::same_text;
use crate::text::lines::{lines, split_lines};
use crate::text::number::{parse_u64, parsed_number};
use crate::text::search::{after_prefix, begins_with};
use crate::text::space::{optional_text, split_words, trim, trimmed, views, words};
use vstd::prelude::*;

verus! {

/// What the machine has.
#[derive(Debug, Clone)]
pub struct HostResources {
    pub host_memory_bytes: Option<u64>,
    pub accelerator_memory_bytes: Option<u64>,
    pub accelerator: Option<String>,
}

/// The first of a list of lines that begins with a prefix.
pub open spec fn first_line_with(all: Seq<Seq<char>>, prefix: Seq<char>) -> Option<Seq<char>>
    decreases all.len(),
{
    if all.len() == 0 {
        None
    } else if begins_with(all[0], prefix) {
        Some(all[0])
    } else {
        first_line_with(all.drop_first(), prefix)
    }
}

/// A number of KiB in bytes, or the largest number where they are more.
pub open spec fn kib_in_bytes(kib: int) -> u64 {
    if kib * 1024 <= u64::MAX {
        (kib * 1024) as u64
    } else {
        u64::MAX
    }
}

/// The memory that is available, by the kernel's report on memory.
pub open spec fn available_bytes(report: Seq<char>) -> Option<u64> {
    match first_line_with(lines(report), "MemAvailable:"@) {
        None => None,
        Some(line) => if words(line).len() < 2 {
            None
        } else {
            match parsed_number(words(line)[1], 10, u64::MAX as int) {
                Some(kib) => Some(kib_in_bytes(kib)),
                None => None,
            }
        },
    }
}

fn find_line_with(parts: &[String], prefix: &str) -> (found: Option<String>)
    ensures
        match found {
            Some(line) => first_line_with(views(parts@), prefix@) == Some(line@),
            None => first_line_with(views(parts@), prefix@) is None,
        },
{
    let ghost all = views(parts@);
    proof {
        assert(all.skip(0) =~= all);
    }
    for i in 0..parts.len()
        invariant
            all == views(parts@),
            first_line_with(all, prefix@) == first_line_with(all.skip(i as int), prefix@),
    {
        proof {
            assert(all.skip(i as int).drop_first() =~= all.skip(i + 1));
            assert(all.skip(i as int)[0] == parts@[i as int]@);
        }
        if after_prefix(parts[i].as_str(), prefix).is_some() {
            return Some(parts[i].clone());
        }
    }
    None
}

/// The memory that is available, by the kernel's report on memory.
pub fn available_memory(report: &str) -> (bytes: Option<u64>)
    ensures
        bytes == available_bytes(report@),
{
    let parts = split_lines(report);
    match find_line_with(&parts, "MemAvailable:") {
        None => None,
        Some(line) => {
            let fields = split_words(line.as_str());
            proof {
                assert(views(fields@).len() == fields@.len());
            }
            if fields.len() < 2 {
                return None;
            }
            proof {
                assert(views(fields@)[1] == fields@[1]@);
            }
            match parse_u64(fields[1].as_str()) {
                Some(kib) => {
                    match kib.checked_mul(1024) {
                        Some(bytes) => Some(bytes),
                        None => Some(u64::MAX),
                    }
                },
                None => None,
            }
        },
    }
}

/// The name of an accelerator.
pub open spec fn accelerator_text(accelerator: RuntimeAccelerator) -> Seq<char> {
    match accelerator {
        RuntimeAccelerator::Cpu => "cpu"@,
        RuntimeAccelerator::Cuda => "cuda"@,
        RuntimeAccelerator::Rocm => "rocm"@,
        RuntimeAccelerator::Mps => "mps"@,
        RuntimeAccelerator::Mlx => "mlx"@,
        RuntimeAccelerator::Other => "other"@,
    }
}

/// The name of an accelerator.
pub fn accelerator_name(accelerator: RuntimeAccelerator) -> (name: &'static str)
    ensures
        name@ == accelerator_text(accelerator),
{
    match accelerator {
        RuntimeAccelerator::Cpu => "cpu",
        RuntimeAccelerator::Cuda => "cuda",
        RuntimeAccelerator::Rocm => "rocm",
        RuntimeAccelerator::Mps => "mps",
        RuntimeAccelerator::Mlx => "mlx",
        RuntimeAccelerator::Other => "other",
    }
}

/// The accelerator of a name; the case of letters does not matter.
pub open spec fn accelerator_named(name: Seq<char>) -> RuntimeAccelerator {
    if lower(name) == "cuda"@ {
        RuntimeAccelerator::Cuda
    } else if lower(name) == "rocm"@ || lower(name) == "hip"@ {
        RuntimeAccelerator::Rocm
    } else if lower(name) == "mps"@ || lower(name) == "metal"@ {
        RuntimeAccelerator::Mps
    } else if lower(name) == "mlx"@ {
        RuntimeAccelerator::Mlx
    } else if lower(name) == "cpu"@ {
        RuntimeAccelerator::Cpu
    } else {
        RuntimeAccelerator::Other
    }
}

/// Whether the value of a variable that lists an accelerator's devices lists any.
pub open spec fn lists_devices(value: Option<Seq<char>>) -> bool {
    value is Some && {
        let text = trim(value->0);
        text.len() > 0 && lower(text) != "-1"@ && lower(text) != "none"@ && lower(text)
            != "disabled"@ && lower(text) != "void"@
    }
}

/// Whether the value of a variable that lists an accelerator's devices lists any.
pub fn accelerator_env_is_enabled(value: Option<&str>) -> (r: bool)
    ensures
        r == lists_devices(
            match value {
                Some(value) => Some(value@),
                None => None,
            },
        ),
{
    match value {
        None => false,
        Some(value) => {
            let text = trimmed(value);
            let lowered = to_lower(text.as_str());
            !text.as_str().is_empty() && !same_text(lowered.as_str(), "-1") && !same_text(
                lowered.as_str(),
                "none",
            ) && !same_text(lowered.as_str(), "disabled") && !same_text(lowered.as_str(), "void")
        },
    }
}

/// What tells the accelerator of the machine.
#[derive(Debug, Clone)]
pub struct AcceleratorSigns {
    /// The value of `WERK_MEDIA_ACCELERATOR`.
    pub set: Option<String>,
    pub macos: bool,
    /// Whether `/dev/nvidiactl` is there.
    pub nvidia_device: bool,
    /// The value of `CUDA_VISIBLE_DEVICES`.
    pub cuda_devices: Option<String>,
    /// Whether `/dev/kfd` is there.
    pub amd_device: bool,
    /// The value of `ROCR_VISIBLE_DEVICES`.
    pub rocm_devices: Option<String>,
}

/// The accelerator of the machine: the one that is set, unless that is blank; else what the
/// system and its devices tell.
pub open spec fn accelerator_by(signs: AcceleratorSigns) -> RuntimeAccelerator {
    if signs.set is Some && trim(signs.set->0@).len() > 0 {
        accelerator_named(signs.set->0@)
    } else if signs.macos {
        RuntimeAccelerator::Mps
    } else if signs.nvidia_device || lists_devices(optional_text(signs.cuda_devices)) {
        RuntimeAccelerator::Cuda
    } else if signs.amd_device || lists_devices(optional_text(signs.rocm_devices)) {
        RuntimeAccelerator::Rocm
    } else {
        RuntimeAccelerator::Cpu
    }
}

fn named_accelerator(name: &str) -> (accelerator: RuntimeAccelerator)
    ensures
        accelerator == accelerator_named(name@),
{
    let lowered = to_lower(name);
    let text = lowered.as_str();
    if same_text(text, "cuda") {
        RuntimeAccelerator::Cuda
    } else if same_text(text, "rocm") || same_text(text, "hip") {
        RuntimeAccelerator::Rocm
    } else if same_text(text, "mps") || same_text(text, "metal") {
        RuntimeAccelerator::Mps
    } else if same_text(text, "mlx") {
        RuntimeAccelerator::Mlx
    } else if same_text(text, "cpu") {
        RuntimeAccelerator::Cpu
    } else {
        RuntimeAccelerator::Other
    }
}

fn devices_of(value: &Option<String>) -> (r: bool)
    ensures
        r == lists_devices(optional_text(*value)),
{
    match value {
        Some(value) => accelerator_env_is_enabled(Some(value.as_str())),
        None => accelerator_env_is_enabled(None),
    }
}

/// The accelerator of the machine.
pub fn detected_accelerator(signs: &AcceleratorSigns) -> (accelerator: RuntimeAccelerator)
    ensures
        accelerator == accelerator_by(*signs),
{
    match &signs.set {
        Some(value) => {
            if !trimmed(value.as_str()).as_str().is_empty() {
                return named_accelerator(value.as_str());
            }
        },
        None => {},
    }
    if signs.macos {
        RuntimeAccelerator::Mps
    } else if signs.nvidia_device || devices_of(&signs.cuda_devices) {
        RuntimeAccelerator::Cuda
    } else if signs.amd_device || devices_of(&signs.rocm_devices) {
        RuntimeAccelerator::Rocm
    } else {
        RuntimeAccelerator::Cpu
    }
}

/// What the machine has. `memory_report` is the kernel's report on memory, `memory_set` the value
/// of `WERK_ACCELERATOR_MEMORY_BYTES`.
pub fn detect_host_resources(
    memory_report: Option<&str>,
    memory_set: Option<&str>,
    signs: &AcceleratorSigns,
) -> (resources: HostResources)
    ensures
        resources.host_memory_bytes == (match memory_report {
            Some(report) => available_bytes(report@),
            None => None,
        }),
        match memory_set {
            Some(set) => match resources.accelerator_memory_bytes {
                Some(bytes) => parsed_number(set@, 10, u64::MAX as int) == Some(bytes as int),
                None => parsed_number(set@, 10, u64::MAX as int) is None,
            },
            None => resources.accelerator_memory_bytes is None,
        },
        resources.accelerator is Some,
        resources.accelerator->0@ == accelerator_text(accelerator_by(*signs)),
{
    let host_memory_bytes = match memory_report {
        Some(report) => available_memory(report),
        None => None,
    };
    let accelerator_memory_bytes = match memory_set {
        Some(set) => parse_u64(set),
        None => None,
    };
    let accelerator = detected_accelerator(signs);
    HostResources {
        host_memory_bytes,
        accelerator_memory_bytes,
        accelerator: Some(accelerator_name(accelerator).to_string()),
    }
}

/// An accelerator that is set by its name is the one that is detected.
pub proof fn law_set_accelerator_is_detected(
    signs: AcceleratorSigns,
    accelerator: RuntimeAccelerator,
)
    requires
        signs.set is Some,
        signs.set->0@ == accelerator_text(accelerator),
    ensures
        accelerator_by(signs) == accelerator,
{
    lemma_names_are_lower(accelerator);
}

proof fn lemma_names_are_lower(accelerator: RuntimeAccelerator)
    ensures
        lower(accelerator_text(accelerator)) == accelerator_text(accelerator),
        trim(accelerator_text(accelerator)) == accelerator_text(accelerator),
        accelerator_text(accelerator).len() > 0,
        accelerator_named(accelerator_text(accelerator)) == accelerator,
{
    reveal_strlit("cpu");
    reveal_strlit("cuda");
    reveal_strlit("rocm");
    reveal_strlit("hip");
    reveal_strlit("mps");
    reveal_strlit("metal");
    reveal_strlit("mlx");
    reveal_strlit("other");
    let name = accelerator_text(accelerator);
    assert(lower(name) =~= name);
    assert("cpu"@[0] != "mps"@[0]);
    assert("mps"@[1] != "mlx"@[1]);
    assert("cpu"@[1] != "mlx"@[1]);
    assert("hip"@[0] != "cpu"@[0]);
    assert("hip"@[0] != "mps"@[0]);
    assert("hip"@[0] != "mlx"@[0]);
    assert("cuda"@[0] != "rocm"@[0]);
    assert("metal"@[0] != "other"@[0]);
}

proof fn lemma_names_differ()
    ensures
        "cpu"@ != "cuda"@,
        "cpu"@ != "rocm"@,
        "cpu"@ != "hip"@,
        "cpu"@ != "mps"@,
        "cpu"@ != "metal"@,
        "cpu"@ != "mlx"@,
        "cuda"@ != "rocm"@,
        "cuda"@ != "hip"@,
        "cuda"@ != "mps"@,
        "cuda"@ != "metal"@,
        "cuda"@ != "mlx"@,
        "rocm"@ != "hip"@,
        "rocm"@ != "mps"@,
        "rocm"@ != "metal"@,
        "rocm"@ != "mlx"@,
        "hip"@ != "mps"@,
        "hip"@ != "metal"@,
        "hip"@ != "mlx"@,
        "mps"@ != "metal"@,
        "mps"@ != "mlx"@,
        "metal"@ != "mlx"@,
{
    reveal_strlit("cpu");
    reveal_strlit("cuda");
    reveal_strlit("rocm");
    reveal_strlit("hip");
    reveal_strlit("mps");
    reveal_strlit("metal");
    reveal_strlit("mlx");
    assert("cpu"@[0] == 'c' && "cpu"@[1] == 'p');
    assert("cuda"@[0] == 'c' && "rocm"@[0] == 'r');
    assert("hip"@[0] == 'h' && "mps"@[0] == 'm' && "mps"@[1] == 'p');
    assert("mlx"@[0] == 'm' && "mlx"@[1] == 'l');
}

/// An accelerator that is asked for by a name, in any letter case, is matched by the runtimes on
/// the accelerator of that name and by no other. ROCm has the second name HIP. Metal is a second
/// name of two accelerators.
pub proof fn law_accelerators_match_their_names(accelerator: RuntimeAccelerator, name: Seq<char>)
    ensures
        lower(name) == "cpu"@ ==> (accelerator_goes_by(accelerator, name) <==> accelerator
            == RuntimeAccelerator::Cpu),
        lower(name) == "cuda"@ ==> (accelerator_goes_by(accelerator, name) <==> accelerator
            == RuntimeAccelerator::Cuda),
        lower(name) == "rocm"@ || lower(name) == "hip"@ ==> (accelerator_goes_by(accelerator, name)
            <==> accelerator == RuntimeAccelerator::Rocm),
        lower(name) == "mps"@ ==> (accelerator_goes_by(accelerator, name) <==> accelerator
            == RuntimeAccelerator::Mps),
        lower(name) == "mlx"@ ==> (accelerator_goes_by(accelerator, name) <==> accelerator
            == RuntimeAccelerator::Mlx),
        lower(name) == "metal"@ ==> (accelerator_goes_by(accelerator, name) <==> accelerator
            == RuntimeAccelerator::Mps || accelerator == RuntimeAccelerator::Mlx),
        accelerator_goes_by(accelerator, name) ==> seq![
            "cpu"@,
            "cuda"@,
            "rocm"@,
            "hip"@,
            "mps"@,
            "mlx"@,
            "metal"@,
        ].contains(lower(name)),
{
    lemma_names_differ();
    let names = seq!["cpu"@, "cuda"@, "rocm"@, "hip"@, "mps"@, "mlx"@, "metal"@];
    assert(names[0] == "cpu"@ && names[1] == "cuda"@ && names[2] == "rocm"@ && names[3] == "hip"@);
    assert(names[4] == "mps"@ && names[5] == "mlx"@ && names[6] == "metal"@);
}

/// The name under which the machine reports its accelerator asks for the runtimes on that
/// accelerator and for no others, unless the accelerator is an unknown one.
pub proof fn law_reported_accelerator_can_be_asked_for(
    signs: AcceleratorSigns,
    accelerator: RuntimeAccelerator,
    name: Seq<char>,
)
    requires
        lower(name) == accelerator_text(accelerator_by(signs)),
        accelerator_by(signs) != RuntimeAccelerator::Other,
    ensures
        accelerator_goes_by(accelerator, name) <==> accelerator == accelerator_by(signs),
{
    lemma_names_differ();
}

/// A name that sets the machine's accelerator asks for the runtimes on just that accelerator, with
/// one exception: the name of Metal sets one accelerator and asks for two. A name that sets no
/// known accelerator asks for none.
pub proof fn law_set_names_and_asked_names_agree(accelerator: RuntimeAccelerator, name: Seq<char>)
    ensures
        accelerator_named(name) == RuntimeAccelerator::Other ==> !accelerator_goes_by(
            accelerator,
            name,
        ),
        accelerator_named(name) != RuntimeAccelerator::Other ==> accelerator_goes_by(
            accelerator_named(name),
            name,
        ),
        accelerator_goes_by(accelerator, name) && lower(name) != "metal"@ ==> accelerator_named(name)
            == accelerator,
        lower(name) == "metal"@ ==> accelerator_named(name) == RuntimeAccelerator::Mps,
{
    lemma_names_differ();
}

/// Whether the environment names no accelerator.
pub open spec fn names_none(signs: AcceleratorSigns) -> bool {
    signs.set is None || trim(signs.set->0@).len() == 0
}

/// Where no accelerator is set and the system is not macOS, the accelerator is the CPU just where
/// no device is there and none is listed. A sign of an NVIDIA device makes it CUDA, and a sign of
/// an AMD device alone makes it ROCm, whether the sign is the device or the list.
pub proof fn law_devices_tell_the_accelerator(signs: AcceleratorSigns)
    requires
        names_none(signs),
        !signs.macos,
    ensures
        accelerator_by(signs) == RuntimeAccelerator::Cpu <==> !signs.nvidia_device
            && !signs.amd_device && !lists_devices(optional_text(signs.cuda_devices))
            && !lists_devices(optional_text(signs.rocm_devices)),
        signs.nvidia_device ==> accelerator_by(signs) == RuntimeAccelerator::Cuda,
        lists_devices(optional_text(signs.cuda_devices)) ==> accelerator_by(signs)
            == RuntimeAccelerator::Cuda,
        signs.amd_device && !signs.nvidia_device && !lists_devices(
            optional_text(signs.cuda_devices),
        ) ==> accelerator_by(signs) == RuntimeAccelerator::Rocm,
        lists_devices(optional_text(signs.rocm_devices)) && !signs.nvidia_device && !lists_devices(
            optional_text(signs.cuda_devices),
        ) ==> accelerator_by(signs) == RuntimeAccelerator::Rocm,
{
}

/// On macOS the accelerator is that of the system, whatever devices are listed, unless one is
/// set; and one that is set counts everywhere.
pub proof fn law_settings_and_system_come_before_devices(
    first: AcceleratorSigns,
    second: AcceleratorSigns,
)
    requires
        first.set == second.set,
        first.macos,
    ensures
        names_none(first) ==> accelerator_by(first) == RuntimeAccelerator::Mps,
        !names_none(first) ==> accelerator_by(first) == accelerator_by(second),
{
}

/// A list of devices lists none just where it is not given, is blank, or is one of the words that
/// stand for no device, in any letter case.
pub proof fn law_words_for_no_device(value: Option<Seq<char>>)
    ensures
        value is None ==> !lists_devices(value),
        value is Some && trim(value->0).len() == 0 ==> !lists_devices(value),
        value is Some && seq!["-1"@, "none"@, "disabled"@, "void"@].contains(lower(trim(value->0)))
            ==> !lists_devices(value),
        !lists_devices(value) && value is Some && trim(value->0).len() > 0 ==> seq![
            "-1"@,
            "none"@,
            "disabled"@,
            "void"@,
        ].contains(lower(trim(value->0))),
{
    let all = seq!["-1"@, "none"@, "disabled"@, "void"@];
    assert(all[0] == "-1"@ && all[1] == "none"@ && all[2] == "disabled"@ && all[3] == "void"@);
}

proof fn lemma_first_line_with(all: Seq<Seq<char>>, prefix: Seq<char>, at: int)
    requires
        0 <= at < all.len(),
        begins_with(all[at], prefix),
        forall|j: int| 0 <= j < at ==> !begins_with(#[trigger] all[j], prefix),
    ensures
        first_line_with(all, prefix) == Some(all[at]),
    decreases all.len(),
{
    if at > 0 {
        let rest = all.drop_first();
        assert(!begins_with(all[0], prefix));
        assert(rest[at - 1] == all[at]);
        assert forall|j: int| 0 <= j < at - 1 implies !begins_with(#[trigger] rest[j], prefix) by {
            assert(rest[j] == all[j + 1]);
        }
        lemma_first_line_with(rest, prefix, at - 1);
    }
}

/// The available memory is the number of KiB that stands second on the first line on it, in bytes;
/// it is never less than that, and less than it only where bytes run out of numbers.
pub proof fn law_memory_is_that_of_the_first_line_on_it(report: Seq<char>, at: int, kib: int)
    requires
        0 <= at < lines(report).len(),
        begins_with(lines(report)[at], "MemAvailable:"@),
        forall|j: int|
            0 <= j < at ==> !begins_with(#[trigger] lines(report)[j], "MemAvailable:"@),
        words(lines(report)[at]).len() >= 2,
        parsed_number(words(lines(report)[at])[1], 10, u64::MAX as int) == Some(kib),
        kib >= 0,
    ensures
        available_bytes(report) is Some,
        kib * 1024 <= u64::MAX ==> available_bytes(report)->0 == kib * 1024,
        kib * 1024 > u64::MAX ==> available_bytes(report)->0 == u64::MAX,
{
    lemma_first_line_with(lines(report), "MemAvailable:"@, at);
}

} // verus!
