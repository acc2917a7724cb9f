use vstd::prelude::*;

use crate::error::{BuddyError, BuddyErrorView, BuddyResult};
use crate::text::{concat_str, opt_string_view, str_eq};

verus! {

/// The pet's mood.
#[derive(Debug, Clone, Copy, PartialEq, Eq)]
pub enum AffectiveMood {
    Neutral,
    Happy,
    Sad,
}

/// The pet's energy.
#[derive(Debug, Clone, Copy, PartialEq, Eq)]
pub enum AffectiveEnergy {
    Low,
    Medium,
    High,
}

/// The pet's affective state.
#[derive(Debug, Clone, Copy, PartialEq, Eq)]
pub struct AffectiveContext {
    pub mood: AffectiveMood,
    pub energy: AffectiveEnergy,
}

/// A neutral mood with medium energy.
pub open spec fn spec_default_affective_context() -> AffectiveContext {
    AffectiveContext { mood: AffectiveMood::Neutral, energy: AffectiveEnergy::Medium }
}

impl Default for AffectiveContext {
    /// A neutral mood with medium energy.
    fn default() -> (r: Self)
        ensures
            r == (AffectiveContext { mood: AffectiveMood::Neutral, energy: AffectiveEnergy::Medium }),
    {
        AffectiveContext { mood: AffectiveMood::Neutral, energy: AffectiveEnergy::Medium }
    }
}

/// Where an affective state came from.
#[derive(Debug, Clone, Copy, PartialEq, Eq)]
pub enum AffectiveContextSource {
    DefaultCreated,
    StateFile,
    InvalidFileFallback,
}

impl AffectiveContextSource {
    pub open spec fn spec_as_str(self) -> Seq<char> {
        match self {
            AffectiveContextSource::DefaultCreated => "defaultCreated"@,
            AffectiveContextSource::StateFile => "stateFile"@,
            AffectiveContextSource::InvalidFileFallback => "invalidFileFallback"@,
        }
    }

    /// The camel-case name of the source.
    pub fn as_str(self) -> (r: &'static str)
        ensures
            r@ == self.spec_as_str(),
    {
        match self {
            AffectiveContextSource::DefaultCreated => "defaultCreated",
            AffectiveContextSource::StateFile => "stateFile",
            AffectiveContextSource::InvalidFileFallback => "invalidFileFallback",
        }
    }
}

/// An affective state with where it came from.
#[derive(Debug, Clone, Copy, PartialEq, Eq)]
pub struct AffectiveContextSnapshot {
    pub context: AffectiveContext,
    pub source: AffectiveContextSource,
}

/// The snapshot read from the state file: the default when there is no file (the caller then
/// writes it), the file's state when it reads as one, and the default again when it does not.
pub fn affective_snapshot_for_state_file(file_exists: bool, parsed: Option<AffectiveContext>) -> (r:
    AffectiveContextSnapshot)
    ensures
        !file_exists ==> r == (AffectiveContextSnapshot {
            context: spec_default_affective_context(),
            source: AffectiveContextSource::DefaultCreated,
        }),
        file_exists && parsed is Some ==> r == (AffectiveContextSnapshot {
            context: parsed.unwrap(),
            source: AffectiveContextSource::StateFile,
        }),
        file_exists && parsed is None ==> r == (AffectiveContextSnapshot {
            context: spec_default_affective_context(),
            source: AffectiveContextSource::InvalidFileFallback,
        }),
{
    if !file_exists {
        return AffectiveContextSnapshot {
            context: AffectiveContext::default(),
            source: AffectiveContextSource::DefaultCreated,
        };
    }
    match parsed {
        Some(context) => AffectiveContextSnapshot { context, source: AffectiveContextSource::StateFile },
        None => AffectiveContextSnapshot {
            context: AffectiveContext::default(),
            source: AffectiveContextSource::InvalidFileFallback,
        },
    }
}

/// The state after a partial update: each field that is given replaces the current one.
pub fn updated_affective_context(
    current: AffectiveContext,
    mood: Option<AffectiveMood>,
    energy: Option<AffectiveEnergy>,
) -> (r: AffectiveContext)
    ensures
        r.mood == (match mood {
            Some(m) => m,
            None => current.mood,
        }),
        r.energy == (match energy {
            Some(e) => e,
            None => current.energy,
        }),
{
    AffectiveContext {
        mood: match mood {
            Some(m) => m,
            None => current.mood,
        },
        energy: match energy {
            Some(e) => e,
            None => current.energy,
        },
    }
}

/// Law: updates of different fields commute, so two partial updates of one field each never
/// lose the other's field, in either order.
pub proof fn law_partial_updates_keep_both_fields(
    current: AffectiveContext,
    mood: AffectiveMood,
    energy: AffectiveEnergy,
)
    ensures
        ({
            let a = AffectiveContext { mood, energy: current.energy };
            AffectiveContext { mood: a.mood, energy }
        }) == ({
            let b = AffectiveContext { mood: current.mood, energy };
            AffectiveContext { mood, energy: b.energy }
        }),
        ({
            let a = AffectiveContext { mood, energy: current.energy };
            AffectiveContext { mood: a.mood, energy }
        }) == (AffectiveContext { mood, energy }),
{
}

pub open spec fn spec_parse_affective_mood(value: Seq<char>) -> Result<AffectiveMood, BuddyErrorView> {
    if value == "neutral"@ {
        Ok(AffectiveMood::Neutral)
    } else if value == "happy"@ {
        Ok(AffectiveMood::Happy)
    } else if value == "sad"@ {
        Ok(AffectiveMood::Sad)
    } else {
        Err(BuddyErrorView::Validation("unsupported buddy affective mood: "@ + value))
    }
}

/// Law: reading a mood's name gives that mood, and a name is read as a mood only when it is
/// that mood's name: `neutral`, `happy` and `sad` stand for the moods of those names.
pub proof fn law_mood_names_round_trip(m: AffectiveMood, value: Seq<char>)
    ensures
        spec_parse_affective_mood(crate::action_log::spec_mood_name(m)) == Ok::<AffectiveMood, BuddyErrorView>(m),
        spec_parse_affective_mood(value) == Ok::<AffectiveMood, BuddyErrorView>(m) ==> value
            == crate::action_log::spec_mood_name(m),
        crate::action_log::spec_mood_name(AffectiveMood::Neutral) == "neutral"@,
        crate::action_log::spec_mood_name(AffectiveMood::Happy) == "happy"@,
        crate::action_log::spec_mood_name(AffectiveMood::Sad) == "sad"@,
{
    reveal_strlit("neutral");
    reveal_strlit("happy");
    reveal_strlit("sad");
    assert("happy"@[0] != "neutral"@[0]);
    assert("sad"@[0] != "neutral"@[0]);
    assert("sad"@[0] != "happy"@[0]);
}

/// Law: reading an energy's name gives that energy, and only its name reads as it.
pub proof fn law_energy_names_round_trip(e: AffectiveEnergy, value: Seq<char>)
    ensures
        spec_parse_affective_energy(crate::action_log::spec_energy_name(e)) == Ok::<AffectiveEnergy, BuddyErrorView>(e),
        spec_parse_affective_energy(value) == Ok::<AffectiveEnergy, BuddyErrorView>(e) ==> value
            == crate::action_log::spec_energy_name(e),
        crate::action_log::spec_energy_name(AffectiveEnergy::Low) == "low"@,
        crate::action_log::spec_energy_name(AffectiveEnergy::Medium) == "medium"@,
        crate::action_log::spec_energy_name(AffectiveEnergy::High) == "high"@,
{
    reveal_strlit("low");
    reveal_strlit("medium");
    reveal_strlit("high");
    assert("medium"@[0] != "low"@[0]);
    assert("high"@[0] != "low"@[0]);
    assert("high"@[0] != "medium"@[0]);
}

/// Reads a mood by its name.
pub fn parse_affective_mood(value: &str) -> (r: BuddyResult<AffectiveMood>)
    ensures
        match spec_parse_affective_mood(value@) {
            Ok(m) => r == Ok::<AffectiveMood, BuddyError>(m),
            Err(e) => r is Err && r->Err_0@ == e,
        },
{
    if str_eq(value, "neutral") {
        Ok(AffectiveMood::Neutral)
    } else if str_eq(value, "happy") {
        Ok(AffectiveMood::Happy)
    } else if str_eq(value, "sad") {
        Ok(AffectiveMood::Sad)
    } else {
        Err(BuddyError::Validation(concat_str("unsupported buddy affective mood: ", value)))
    }
}

pub open spec fn spec_parse_affective_energy(value: Seq<char>) -> Result<AffectiveEnergy, BuddyErrorView> {
    if value == "low"@ {
        Ok(AffectiveEnergy::Low)
    } else if value == "medium"@ {
        Ok(AffectiveEnergy::Medium)
    } else if value == "high"@ {
        Ok(AffectiveEnergy::High)
    } else {
        Err(BuddyErrorView::Validation("unsupported buddy affective energy: "@ + value))
    }
}

/// Reads an energy by its name.
pub fn parse_affective_energy(value: &str) -> (r: BuddyResult<AffectiveEnergy>)
    ensures
        match spec_parse_affective_energy(value@) {
            Ok(m) => r == Ok::<AffectiveEnergy, BuddyError>(m),
            Err(e) => r is Err && r->Err_0@ == e,
        },
{
    if str_eq(value, "low") {
        Ok(AffectiveEnergy::Low)
    } else if str_eq(value, "medium") {
        Ok(AffectiveEnergy::Medium)
    } else if str_eq(value, "high") {
        Ok(AffectiveEnergy::High)
    } else {
        Err(BuddyError::Validation(concat_str("unsupported buddy affective energy: ", value)))
    }
}

pub open spec fn args_view(args: Seq<String>) -> Seq<Seq<char>> {
    args.map_values(|a: String| a@)
}

/// The argument right after the first occurrence of `flag` that has one.
#[verifier::opaque]
pub open spec fn spec_optional_argument_value(args: Seq<Seq<char>>, flag: Seq<char>) -> Option<Seq<char>> {
    if exists|i: int| 0 <= i < args.len() - 1 && args[i] == flag {
        let i = choose|i: int|
            0 <= i < args.len() - 1 && args[i] == flag && forall|j: int| 0 <= j < i ==> args[j] != flag;
        Some(args[i + 1])
    } else {
        None
    }
}

/// The argument right after the first occurrence of `flag` that has one.
pub fn optional_argument_value(args: &Vec<String>, flag: &str) -> (r: Option<String>)
    ensures
        opt_string_view(r) == spec_optional_argument_value(args_view(args@), flag@),
{
    reveal(spec_optional_argument_value);
    let ghost a = args_view(args@);
    let mut i: usize = 0;
    while args.len() > 0 && i < args.len() - 1
        invariant
            a == args_view(args@),
            a.len() == args@.len(),
            i <= args@.len(),
            forall|j: int| 0 <= j < i ==> a[j] != flag@,
        decreases args@.len() - i,
    {
        if str_eq(args[i].as_str(), flag) {
            proof {
                reveal(spec_optional_argument_value);
                assert(a[i as int] == flag@);
                let k = choose|k: int|
                    0 <= k < a.len() - 1 && a[k] == flag@ && forall|j: int| 0 <= j < k ==> a[j] != flag@;
                assert(0 <= i < a.len() - 1 && a[i as int] == flag@ && forall|j: int| 0 <= j < i ==> a[j] != flag@);
                if k < i {
                    assert(a[k] != flag@);
                } else if k > i {
                    assert(a[i as int] != flag@);
                }
            }
            return Some(args[i + 1].clone());
        }
        assert(a[i as int] == args@[i as int]@);
        i = i + 1;
    }
    None
}

/// The value given for `flag`.
pub fn argument_value(args: &Vec<String>, flag: &str) -> (r: Option<String>)
    ensures
        opt_string_view(r) == spec_optional_argument_value(args_view(args@), flag@),
{
    optional_argument_value(args, flag)
}

/// What the affective-state command does.
#[derive(Debug, Clone, Copy, PartialEq, Eq)]
pub enum AffectiveStateCommandOperation {
    Get,
    Update { mood: Option<AffectiveMood>, energy: Option<AffectiveEnergy> },
}

/// The affective-state command: its data directory, when one is given, and its operation.
#[derive(Debug, Clone, PartialEq, Eq)]
pub struct AffectiveStateCommandConfig {
    pub data_dir: Option<String>,
    pub operation: AffectiveStateCommandOperation,
}

#[verifier::opaque]
pub open spec fn spec_first_index_of(args: Seq<Seq<char>>, s: Seq<char>) -> Option<int> {
    if args.contains(s) {
        Some(choose|i: int| 0 <= i < args.len() && args[i] == s && forall|j: int| 0 <= j < i ==> args[j] != s)
    } else {
        None
    }
}

pub open spec fn spec_optional_parse<T>(
    v: Option<Seq<char>>,
    parse: spec_fn(Seq<char>) -> Result<T, BuddyErrorView>,
) -> Result<Option<T>, BuddyErrorView> {
    match v {
        None => Ok(None),
        Some(s) => match parse(s) {
            Ok(x) => Ok(Some(x)),
            Err(e) => Err(e),
        },
    }
}

/// The operation of `set`: the mood and energy given, at least one of them.
pub open spec fn spec_parse_set_operation(args: Seq<Seq<char>>) -> Result<AffectiveStateCommandOperation, BuddyErrorView> {
    match spec_optional_parse(
        spec_optional_argument_value(args, "--mood"@),
        |s: Seq<char>| spec_parse_affective_mood(s),
    ) {
        Err(e) => Err(e),
        Ok(mood) => match spec_optional_parse(
            spec_optional_argument_value(args, "--energy"@),
            |s: Seq<char>| spec_parse_affective_energy(s),
        ) {
            Err(e) => Err(e),
            Ok(energy) => if mood is None && energy is None {
                Err(BuddyErrorView::Validation("--buddy-affective-state set requires --mood or --energy"@))
            } else {
                Ok(AffectiveStateCommandOperation::Update { mood, energy })
            },
        },
    }
}

/// The affective-state command read from the program's arguments: `None` when the arguments
/// do not ask for it.
pub open spec fn spec_parse_affective_state_command_config(args: Seq<Seq<char>>) -> Option<
    Result<(Option<Seq<char>>, AffectiveStateCommandOperation), BuddyErrorView>,
> {
    match spec_first_index_of(args, "--buddy-affective-state"@) {
        None => None,
        Some(k) => {
            let data_dir = spec_optional_argument_value(args, "--buddy-affective-state-data-dir"@);
            if k >= args.len() - 1 {
                Some(Err(BuddyErrorView::Validation("--buddy-affective-state requires get or set"@)))
            } else if args[k + 1] == "get"@ {
                Some(Ok((data_dir, AffectiveStateCommandOperation::Get)))
            } else if args[k + 1] == "set"@ {
                match spec_parse_set_operation(args) {
                    Err(e) => Some(Err(e)),
                    Ok(op) => Some(Ok((data_dir, op))),
                }
            } else {
                Some(Err(BuddyErrorView::Validation("--buddy-affective-state only supports get or set"@)))
            }
        },
    }
}

pub open spec fn config_result_view(r: Option<BuddyResult<AffectiveStateCommandConfig>>) -> Option<
    Result<(Option<Seq<char>>, AffectiveStateCommandOperation), BuddyErrorView>,
> {
    match r {
        None => None,
        Some(Ok(c)) => Some(Ok((opt_string_view(c.data_dir), c.operation))),
        Some(Err(e)) => Some(Err(e@)),
    }
}

fn first_index_of(args: &Vec<String>, s: &str) -> (r: Option<usize>)
    ensures
        match r {
            Some(k) => spec_first_index_of(args_view(args@), s@) == Some(k as int) && k < args@.len(),
            None => spec_first_index_of(args_view(args@), s@) is None,
        },
{
    reveal(spec_first_index_of);
    let ghost a = args_view(args@);
    let mut k: usize = 0;
    while k < args.len()
        invariant
            a == args_view(args@),
            a.len() == args@.len(),
            k <= args@.len(),
            forall|j: int| 0 <= j < k ==> a[j] != s@,
        decreases args@.len() - k,
    {
        assert(a[k as int] == args@[k as int]@);
        if str_eq(args[k].as_str(), s) {
            proof {
                reveal(spec_first_index_of);
                assert(a.contains(s@));
                let c = choose|i: int| 0 <= i < a.len() && a[i] == s@ && forall|j: int| 0 <= j < i ==> a[j] != s@;
                assert(0 <= k < a.len() && a[k as int] == s@ && forall|j: int| 0 <= j < k ==> a[j] != s@);
                if c < k {
                    assert(a[c] != s@);
                } else if c > k {
                    assert(a[k as int] != s@);
                }
            }
            return Some(k);
        }
        k = k + 1;
    }
    assert(!a.contains(s@));
    None
}

fn parse_set_operation(args: &Vec<String>) -> (r: BuddyResult<AffectiveStateCommandOperation>)
    ensures
        match spec_parse_set_operation(args_view(args@)) {
            Ok(op) => r == Ok::<AffectiveStateCommandOperation, BuddyError>(op),
            Err(e) => r is Err && r->Err_0@ == e,
        },
{
    let mood = match optional_argument_value(args, "--mood") {
        Some(value) => match parse_affective_mood(value.as_str()) {
            Ok(m) => Some(m),
            Err(e) => return Err(e),
        },
        None => None,
    };
    let energy = match optional_argument_value(args, "--energy") {
        Some(value) => match parse_affective_energy(value.as_str()) {
            Ok(e) => Some(e),
            Err(e) => return Err(e),
        },
        None => None,
    };
    if mood.is_none() && energy.is_none() {
        return Err(BuddyError::Validation("--buddy-affective-state set requires --mood or --energy".to_owned()));
    }
    Ok(AffectiveStateCommandOperation::Update { mood, energy })
}

/// Reads the affective-state command from the program's arguments.
pub fn parse_affective_state_command_config(args: &Vec<String>) -> (r: Option<BuddyResult<AffectiveStateCommandConfig>>)
    ensures
        config_result_view(r) == spec_parse_affective_state_command_config(args_view(args@)),
{
    let k = match first_index_of(args, "--buddy-affective-state") {
        Some(k) => k,
        None => return None,
    };
    let data_dir = argument_value(args, "--buddy-affective-state-data-dir");
    if k >= args.len() - 1 {
        return Some(Err(BuddyError::Validation("--buddy-affective-state requires get or set".to_owned())));
    }
    assert(args_view(args@)[k + 1] == args@[k + 1]@);
    let operation_name = args[k + 1].as_str();
    if str_eq(operation_name, "get") {
        return Some(Ok(AffectiveStateCommandConfig { data_dir, operation: AffectiveStateCommandOperation::Get }));
    }
    if !str_eq(operation_name, "set") {
        return Some(Err(BuddyError::Validation("--buddy-affective-state only supports get or set".to_owned())));
    }
    match parse_set_operation(args) {
        Ok(operation) => Some(Ok(AffectiveStateCommandConfig { data_dir, operation })),
        Err(e) => Some(Err(e)),
    }
}

} // verus!
