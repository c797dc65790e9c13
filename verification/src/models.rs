//! Run modes, report formats, activity states and the configuration records.

use crate::error::ScanError;
use crate::text::{lowercase, same, to_lowercase};
use vstd::prelude::*;

verus! {

/// What to do with the load balancers found idle.
#[derive(Clone, Copy, Debug, PartialEq, Eq, Structural)]
pub enum RunOption {
    /// Report them.
    List,
    /// Delete them.
    Delete,
    /// A mode that the configuration named and this program does not know.
    Unknown,
}

impl RunOption {
    /// The name of the mode as it is displayed.
    pub open spec fn name(self) -> Seq<char> {
        match self {
            RunOption::List => "List"@,
            RunOption::Delete => "Delete"@,
            RunOption::Unknown => "Unknown"@,
        }
    }

    /// The name of the mode as a configuration file writes it.
    pub open spec fn config_name(self) -> Seq<char> {
        match self {
            RunOption::List => "list"@,
            RunOption::Delete => "delete"@,
            RunOption::Unknown => "unknown"@,
        }
    }

    /// The mode that a configuration file means by `word`: `list` and
    /// `delete` as written, anything else the unknown mode.
    pub open spec fn of_config_name(word: Seq<char>) -> RunOption {
        if word == "list"@ {
            RunOption::List
        } else if word == "delete"@ {
            RunOption::Delete
        } else {
            RunOption::Unknown
        }
    }

    /// The mode that a lowercase `word` names on the command line, if any.
    pub open spec fn of_lowercase(word: Seq<char>) -> Result<RunOption, ()> {
        if word == "list"@ {
            Ok(RunOption::List)
        } else if word == "delete"@ {
            Ok(RunOption::Delete)
        } else {
            Err(())
        }
    }

    /// The displayed name of the mode.
    pub fn to_string(&self) -> (out: String)
        ensures
            out@ == self.name(),
    {
        match self {
            RunOption::List => "List".to_owned(),
            RunOption::Delete => "Delete".to_owned(),
            RunOption::Unknown => "Unknown".to_owned(),
        }
    }

    /// The word that stands for the mode in a configuration file.
    pub fn as_config_name(&self) -> (out: &'static str)
        ensures
            out@ == self.config_name(),
    {
        match self {
            RunOption::List => "list",
            RunOption::Delete => "delete",
            RunOption::Unknown => "unknown",
        }
    }

    /// Reads the mode from a configuration file's word. Never fails: a word
    /// that names no mode gives `Unknown`.
    pub fn from_config_name(word: &str) -> (mode: RunOption)
        ensures
            mode == Self::of_config_name(word@),
    {
        if same(word, "list") {
            RunOption::List
        } else if same(word, "delete") {
            RunOption::Delete
        } else {
            RunOption::Unknown
        }
    }

    /// Reads the mode from a word already in lowercase.
    pub fn from_lowercase(word: &str) -> (mode: Result<RunOption, ()>)
        ensures
            mode == Self::of_lowercase(word@),
    {
        if same(word, "list") {
            Ok(RunOption::List)
        } else if same(word, "delete") {
            Ok(RunOption::Delete)
        } else {
            Err(())
        }
    }

    /// Reads the mode from a word of the command line, whatever its case.
    pub fn from_str(input: &str) -> (mode: Result<RunOption, ()>)
        ensures
            mode == Self::of_lowercase(lowercase(input@)),
    {
        let lower = to_lowercase(input);
        Self::from_lowercase(lower.as_str())
    }
}

/// Writing a mode to a configuration file and reading it back gives the
/// same mode.
pub proof fn lemma_config_name_round_trip(mode: RunOption)
    ensures
        RunOption::of_config_name(mode.config_name()) == mode,
{
    reveal_strlit("list");
    reveal_strlit("delete");
    reveal_strlit("unknown");
    assert("list"@.len() == 4 && "delete"@.len() == 6 && "unknown"@.len() == 7);
}

/// How a report is laid out.
#[derive(Clone, Copy, Debug, PartialEq, Eq, Structural)]
pub enum ListFormat {
    Tabled,
    Csv,
}

impl ListFormat {
    /// The name of the format as it is displayed.
    pub open spec fn name(self) -> Seq<char> {
        match self {
            ListFormat::Tabled => "Tabled"@,
            ListFormat::Csv => "Csv"@,
        }
    }

    /// The format that a lowercase `word` names, if any.
    pub open spec fn of_lowercase(word: Seq<char>) -> Result<ListFormat, ()> {
        if word == "tabled"@ {
            Ok(ListFormat::Tabled)
        } else if word == "csv"@ {
            Ok(ListFormat::Csv)
        } else {
            Err(())
        }
    }

    /// The displayed name of the format.
    pub fn to_string(&self) -> (out: String)
        ensures
            out@ == self.name(),
    {
        match self {
            ListFormat::Tabled => "Tabled".to_owned(),
            ListFormat::Csv => "Csv".to_owned(),
        }
    }

    /// Reads the format from a word already in lowercase.
    pub fn from_lowercase(word: &str) -> (format: Result<ListFormat, ()>)
        ensures
            format == Self::of_lowercase(word@),
    {
        if same(word, "tabled") {
            Ok(ListFormat::Tabled)
        } else if same(word, "csv") {
            Ok(ListFormat::Csv)
        } else {
            Err(())
        }
    }

    /// Reads the format from a word of the command line, whatever its case.
    pub fn from_str(input: &str) -> (format: Result<ListFormat, ()>)
        ensures
            format == Self::of_lowercase(lowercase(input@)),
    {
        let lower = to_lowercase(input);
        Self::from_lowercase(lower.as_str())
    }
}

/// Whether a load balancer showed traffic during the lookback window.
#[derive(Clone, Copy, Debug, PartialEq, Eq, Structural)]
pub enum LoadBalancerState {
    Active,
    Inactive,
}

impl LoadBalancerState {
    /// The name of the state as it appears in reports.
    pub open spec fn name(self) -> Seq<char> {
        match self {
            LoadBalancerState::Active => "Active"@,
            LoadBalancerState::Inactive => "Inactive"@,
        }
    }

    /// Whether the state is `Active`.
    pub fn is_active(&self) -> (active: bool)
        ensures
            active == (*self == LoadBalancerState::Active),
    {
        match self {
            LoadBalancerState::Active => true,
            LoadBalancerState::Inactive => false,
        }
    }

    /// Whether the state is `Inactive`.
    pub fn is_inactive(&self) -> (inactive: bool)
        ensures
            inactive == (*self == LoadBalancerState::Inactive),
    {
        match self {
            LoadBalancerState::Active => false,
            LoadBalancerState::Inactive => true,
        }
    }

    /// The name of the state as it appears in reports.
    pub fn to_string(&self) -> (out: String)
        ensures
            out@ == self.name(),
    {
        match self {
            LoadBalancerState::Active => "Active".to_owned(),
            LoadBalancerState::Inactive => "Inactive".to_owned(),
        }
    }
}

/// One account to scan: the role to assume in it, the regions to visit and
/// the VPCs to which the scan is limited (none listed: no limit).
#[derive(Debug)]
pub struct AwsAccount {
    pub iam_role: String,
    pub regions: Vec<String>,
    pub vpc_ids: Vec<String>,
}

/// The accounts of a configuration.
#[derive(Debug)]
pub struct AwsConfig {
    pub accounts: Vec<AwsAccount>,
}

/// A whole configuration: what to do, how far to look back, and where.
#[derive(Debug)]
pub struct AppConfig {
    pub name: String,
    pub run_option: RunOption,
    /// How many days back the metrics are looked at.
    pub days: i32,
    /// Whether the VPC lists of the accounts are enforced. Where they are
    /// not, load balancers of every VPC are recorded.
    pub strict_vpc_filter: bool,
    pub aws: AwsConfig,
}

impl AppConfig {
    /// Whether the configuration can be acted on: its run mode is one that
    /// is known. To be asked before anything is scanned.
    pub fn check(&self) -> (verdict: Result<(), ScanError>)
        ensures
            verdict == if self.run_option == RunOption::Unknown {
                Err::<(), ScanError>(ScanError::Config)
            } else {
                Ok(())
            },
    {
        match self.run_option {
            RunOption::Unknown => Err(ScanError::Config),
            _ => Ok(()),
        }
    }
}

} // verus!
