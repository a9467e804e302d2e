//! The configuration record and the rule language.

use crate::text::{
    contains, contains_text, ends_with, ends_with_text, occurs_at, starts_with, starts_with_text,
};
use vstd::prelude::*;
use vstd::string::*;

verus! {

/// The shortest interval between two turns of the service loop, in
/// milliseconds. A shorter one in a configuration is raised to this.
pub const MIN_CHECK_INTERVAL_MS: u64 = 100;

/// The interval between two turns of the service loop where none is set.
pub const DEFAULT_CHECK_INTERVAL_MS: u64 = 1000;

/// The interval between two periodic safety checks where none is set.
pub const DEFAULT_POLL_INTERVAL_MS: u64 = 30000;

/// How a rule's name is held against a device name.
#[derive(Debug, Clone, Copy, PartialEq, Eq, Structural)]
pub enum MatchType {
    Exact,
    Contains,
    StartsWith,
    EndsWith,
    Regex,
}

/// A name matcher with a weight. Higher weights win.
#[derive(Debug)]
pub struct DeviceRule {
    pub name: String,
    pub weight: u32,
    pub match_type: MatchType,
    pub enabled: bool,
}

/// The mathematical value of a [`DeviceRule`].
pub struct RuleView {
    pub name: Seq<char>,
    pub weight: u32,
    pub match_type: MatchType,
    pub enabled: bool,
}

impl View for DeviceRule {
    type V = RuleView;

    open spec fn view(&self) -> RuleView {
        RuleView {
            name: self.name@,
            weight: self.weight,
            match_type: self.match_type,
            enabled: self.enabled,
        }
    }
}

impl DeepView for DeviceRule {
    type V = RuleView;

    open spec fn deep_view(&self) -> RuleView {
        self@
    }
}

impl Clone for DeviceRule {
    fn clone(&self) -> (copy: Self)
        ensures
            copy == *self,
    {
        DeviceRule {
            name: self.name.clone(),
            weight: self.weight,
            match_type: self.match_type,
            enabled: self.enabled,
        }
    }
}

impl RuleView {
    /// Whether the rule matches a device name. Matching is exact to the
    /// character: case counts and white space is not normalised. A
    /// disabled rule matches nothing. A `Regex` rule matches as `Contains`
    /// does.
    pub open spec fn matches(self, device_name: Seq<char>) -> bool {
        self.enabled && match self.match_type {
            MatchType::Exact => device_name == self.name,
            MatchType::Contains => contains_text(device_name, self.name),
            MatchType::StartsWith => starts_with_text(device_name, self.name),
            MatchType::EndsWith => ends_with_text(device_name, self.name),
            MatchType::Regex => contains_text(device_name, self.name),
        }
    }
}

/// An enabled rule with an empty name matches every device name, unless
/// it is `Exact`: then it matches the empty name alone.
pub proof fn lemma_empty_rule_name(rule: RuleView, device_name: Seq<char>)
    requires
        rule.enabled,
        rule.name.len() == 0,
    ensures
        rule.match_type == MatchType::Exact ==> (rule.matches(device_name) <==> device_name.len()
            == 0),
        rule.match_type != MatchType::Exact ==> rule.matches(device_name),
{
    assert(device_name.subrange(0, 0) =~= rule.name);
    assert(device_name.subrange(device_name.len() as int, device_name.len() as int) =~= rule.name);
    assert(occurs_at(device_name, rule.name, 0));
    assert(occurs_at(device_name, rule.name, device_name.len() - rule.name.len()));
    if device_name.len() == 0 {
        assert(device_name =~= rule.name);
    }
}

impl DeviceRule {
    /// Whether this rule matches `device_name`.
    pub fn matches(&self, device_name: &str) -> (matched: bool)
        ensures
            matched == self@.matches(device_name@),
    {
        if !self.enabled {
            return false;
        }
        match self.match_type {
            MatchType::Exact => equal_text(device_name, self.name.as_str()),
            MatchType::Contains => contains(device_name, self.name.as_str()),
            MatchType::StartsWith => starts_with(device_name, self.name.as_str()),
            MatchType::EndsWith => ends_with(device_name, self.name.as_str()),
            MatchType::Regex => contains(device_name, self.name.as_str()),
        }
    }
}

/// Whether two texts hold the same characters.
pub fn equal_text(left: &str, right: &str) -> (same: bool)
    ensures
        same == (left@ == right@),
{
    let left_owned = left.to_owned();
    let right_owned = right.to_owned();
    left_owned == right_owned
}

/// The views of a list of rules, in order.
pub open spec fn rule_views(rules: Seq<DeviceRule>) -> Seq<RuleView> {
    rules.map_values(|rule: DeviceRule| rule@)
}

/// The timing of the service loop and what it logs.
#[derive(Debug)]
pub struct GeneralConfig {
    pub check_interval_ms: u64,
    pub poll_interval_ms: u64,
    pub log_level: String,
    pub daemon_mode: bool,
}

/// The mathematical value of a [`GeneralConfig`].
pub struct GeneralView {
    pub check_interval_ms: u64,
    pub poll_interval_ms: u64,
    pub log_level: Seq<char>,
    pub daemon_mode: bool,
}

impl View for GeneralConfig {
    type V = GeneralView;

    open spec fn view(&self) -> GeneralView {
        GeneralView {
            check_interval_ms: self.check_interval_ms,
            poll_interval_ms: self.poll_interval_ms,
            log_level: self.log_level@,
            daemon_mode: self.daemon_mode,
        }
    }
}

impl Clone for GeneralConfig {
    fn clone(&self) -> (copy: Self)
        ensures
            copy == *self,
    {
        GeneralConfig {
            check_interval_ms: self.check_interval_ms,
            poll_interval_ms: self.poll_interval_ms,
            log_level: self.log_level.clone(),
            daemon_mode: self.daemon_mode,
        }
    }
}

impl Default for GeneralConfig {
    fn default() -> (general: Self)
        ensures
            general.check_interval_ms == DEFAULT_CHECK_INTERVAL_MS,
            general.poll_interval_ms == DEFAULT_POLL_INTERVAL_MS,
            general.log_level@ == "info"@,
            !general.daemon_mode,
            general.intervals_valid(),
    {
        GeneralConfig {
            check_interval_ms: DEFAULT_CHECK_INTERVAL_MS,
            poll_interval_ms: DEFAULT_POLL_INTERVAL_MS,
            log_level: String::from_str("info"),
            daemon_mode: false,
        }
    }
}

impl GeneralConfig {
    /// The two intervals are in the order the service loop relies on: a
    /// turn takes no less than the minimum, and a poll no less than a
    /// turn.
    pub open spec fn intervals_valid(&self) -> bool {
        &&& self.check_interval_ms >= MIN_CHECK_INTERVAL_MS
        &&& self.poll_interval_ms >= self.check_interval_ms
    }

    /// The check interval a configuration is loaded with: the one given,
    /// but no less than the minimum.
    pub open spec fn clamped_check_interval(check_interval_ms: u64) -> u64 {
        if check_interval_ms < MIN_CHECK_INTERVAL_MS {
            MIN_CHECK_INTERVAL_MS
        } else {
            check_interval_ms
        }
    }

    /// The poll interval a configuration is loaded with: the one given,
    /// but no less than the clamped check interval.
    pub open spec fn clamped_poll_interval(check_interval_ms: u64, poll_interval_ms: u64) -> u64 {
        if poll_interval_ms < Self::clamped_check_interval(check_interval_ms) {
            Self::clamped_check_interval(check_interval_ms)
        } else {
            poll_interval_ms
        }
    }

    /// Raises the intervals to what the service loop relies on and leaves
    /// everything else as it is.
    pub fn clamp_intervals(self) -> (general: Self)
        ensures
            general.check_interval_ms == Self::clamped_check_interval(self.check_interval_ms),
            general.poll_interval_ms == Self::clamped_poll_interval(
                self.check_interval_ms,
                self.poll_interval_ms,
            ),
            general.log_level == self.log_level,
            general.daemon_mode == self.daemon_mode,
            general.intervals_valid(),
            self.intervals_valid() ==> general == self,
    {
        let check_interval_ms = if self.check_interval_ms < MIN_CHECK_INTERVAL_MS {
            MIN_CHECK_INTERVAL_MS
        } else {
            self.check_interval_ms
        };
        let poll_interval_ms = if self.poll_interval_ms < check_interval_ms {
            check_interval_ms
        } else {
            self.poll_interval_ms
        };
        GeneralConfig {
            check_interval_ms,
            poll_interval_ms,
            log_level: self.log_level,
            daemon_mode: self.daemon_mode,
        }
    }
}

/// Which notifications the user wants to see.
///
/// `show_device_changes` is the name that `show_device_availability` had in
/// earlier configuration files. It is kept only until the record has been
/// migrated.
#[derive(Debug, Clone, Copy, PartialEq, Eq, Structural)]
pub struct NotificationConfig {
    pub show_device_availability: bool,
    pub show_switching_actions: bool,
    pub show_device_changes: Option<bool>,
}

impl Default for NotificationConfig {
    fn default() -> (notifications: Self)
        ensures
            notifications == (NotificationConfig {
                show_device_availability: false,
                show_switching_actions: true,
                show_device_changes: None,
            }),
    {
        NotificationConfig {
            show_device_availability: false,
            show_switching_actions: true,
            show_device_changes: None,
        }
    }
}

/// What a record holds for `show_switching_actions` where the
/// configuration does not set it.
pub fn default_show_switching_actions() -> (shown: bool)
    ensures
        shown,
{
    true
}

impl NotificationConfig {
    /// The record after migration without knowledge of which fields the
    /// source set: the earlier field is taken over only where it is `true`
    /// and the current one is `false`, and is cleared.
    pub open spec fn migrated(self) -> NotificationConfig {
        NotificationConfig {
            show_device_availability: self.show_device_availability || self.show_device_changes
                == Some(true),
            show_switching_actions: self.show_switching_actions,
            show_device_changes: None,
        }
    }

    /// The record after migration with knowledge of whether the source set
    /// the current field: where it did, its value stands; where it did
    /// not, the earlier field's value is taken over if there is one. The
    /// earlier field is cleared.
    pub open spec fn migrated_with_presence(self, was_explicitly_set: bool) -> NotificationConfig {
        NotificationConfig {
            show_device_availability: match self.show_device_changes {
                Some(earlier) if !was_explicitly_set => earlier,
                _ => self.show_device_availability,
            },
            show_switching_actions: self.show_switching_actions,
            show_device_changes: None,
        }
    }

    /// Migrates a record whose source is not known.
    pub fn migrate_from_old_config(self) -> (migrated: Self)
        ensures
            migrated == self.migrated(),
    {
        let mut migrated = self;
        if let Some(earlier) = self.show_device_changes {
            if !self.show_device_availability && earlier {
                migrated.show_device_availability = earlier;
            }
        }
        migrated.show_device_changes = None;
        migrated
    }

    /// Migrates a record read from a source of which it is known whether
    /// it set `show_device_availability`.
    pub fn migrate_with_presence_info(self, was_explicitly_set: bool) -> (migrated: Self)
        ensures
            migrated == self.migrated_with_presence(was_explicitly_set),
    {
        let mut migrated = self;
        if let Some(earlier) = self.show_device_changes {
            if !was_explicitly_set {
                migrated.show_device_availability = earlier;
            }
        }
        migrated.show_device_changes = None;
        migrated
    }
}

/// Migration is idempotent: migrating a migrated record changes nothing,
/// in either form and whatever is known of the source the second time.
pub proof fn lemma_migration_idempotent(
    notifications: NotificationConfig,
    was_explicitly_set: bool,
    was_explicitly_set_again: bool,
)
    ensures
        notifications.migrated().migrated() == notifications.migrated(),
        notifications.migrated_with_presence(was_explicitly_set).migrated_with_presence(
            was_explicitly_set_again,
        ) == notifications.migrated_with_presence(was_explicitly_set),
        notifications.migrated_with_presence(was_explicitly_set).migrated()
            == notifications.migrated_with_presence(was_explicitly_set),
{
}

/// Where the source sets the current field, migration keeps its value
/// whatever the earlier field says.
pub proof fn lemma_explicit_field_wins(notifications: NotificationConfig)
    ensures
        notifications.migrated_with_presence(true).show_device_availability
            == notifications.show_device_availability,
        notifications.migrated_with_presence(true).show_device_changes is None,
{
}

/// The whole configuration.
#[derive(Debug)]
pub struct Config {
    pub general: GeneralConfig,
    pub notifications: NotificationConfig,
    pub output_devices: Vec<DeviceRule>,
    pub input_devices: Vec<DeviceRule>,
}

/// The mathematical value of a [`Config`].
pub struct ConfigView {
    pub general: GeneralView,
    pub notifications: NotificationConfig,
    pub output_devices: Seq<RuleView>,
    pub input_devices: Seq<RuleView>,
}

impl View for Config {
    type V = ConfigView;

    open spec fn view(&self) -> ConfigView {
        ConfigView {
            general: self.general@,
            notifications: self.notifications,
            output_devices: rule_views(self.output_devices@),
            input_devices: rule_views(self.input_devices@),
        }
    }
}

/// Copies a list of rules.
pub fn clone_rules(rules: &[DeviceRule]) -> (copy: Vec<DeviceRule>)
    ensures
        copy@ == rules@,
{
    let mut copy: Vec<DeviceRule> = Vec::new();
    let mut index: usize = 0;
    while index < rules.len()
        invariant
            index <= rules@.len(),
            copy@ == rules@.take(index as int),
        decreases rules@.len() - index,
    {
        copy.push(rules[index].clone());
        assert(rules@.take(index + 1) == rules@.take(index as int).push(rules@[index as int]));
        index += 1;
    }
    assert(rules@.take(rules@.len() as int) == rules@);
    copy
}

impl Clone for Config {
    fn clone(&self) -> (copy: Self)
        ensures
            copy.general == self.general,
            copy.notifications == self.notifications,
            copy.output_devices@ == self.output_devices@,
            copy.input_devices@ == self.input_devices@,
            copy@ == self@,
    {
        Config {
            general: self.general.clone(),
            notifications: self.notifications,
            output_devices: clone_rules(self.output_devices.as_slice()),
            input_devices: clone_rules(self.input_devices.as_slice()),
        }
    }
}

/// A rule from its parts.
fn rule(name: &str, weight: u32, match_type: MatchType) -> (rule: DeviceRule)
    ensures
        rule@ == (RuleView { name: name@, weight, match_type, enabled: true }),
{
    DeviceRule { name: name.to_owned(), weight, match_type, enabled: true }
}

/// The output rules of the default configuration.
pub open spec fn default_output_rules() -> Seq<RuleView> {
    seq![
        RuleView { name: "AirPods"@, weight: 100, match_type: MatchType::Contains, enabled: true },
        RuleView {
            name: "MacBook Pro Speakers"@,
            weight: 10,
            match_type: MatchType::Exact,
            enabled: true,
        },
    ]
}

/// The input rules of the default configuration.
pub open spec fn default_input_rules() -> Seq<RuleView> {
    seq![
        RuleView { name: "AirPods"@, weight: 100, match_type: MatchType::Contains, enabled: true },
        RuleView {
            name: "MacBook Pro Microphone"@,
            weight: 10,
            match_type: MatchType::Exact,
            enabled: true,
        },
    ]
}

/// The default configuration.
pub open spec fn default_config() -> ConfigView {
    ConfigView {
        general: GeneralView {
            check_interval_ms: DEFAULT_CHECK_INTERVAL_MS,
            poll_interval_ms: DEFAULT_POLL_INTERVAL_MS,
            log_level: "info"@,
            daemon_mode: false,
        },
        notifications: NotificationConfig {
            show_device_availability: false,
            show_switching_actions: true,
            show_device_changes: None,
        },
        output_devices: default_output_rules(),
        input_devices: default_input_rules(),
    }
}

impl Default for Config {
    fn default() -> (config: Self)
        ensures
            config@ == default_config(),
            config.valid(),
    {
        let mut output_devices: Vec<DeviceRule> = Vec::new();
        output_devices.push(rule("AirPods", 100, MatchType::Contains));
        output_devices.push(rule("MacBook Pro Speakers", 10, MatchType::Exact));
        let mut input_devices: Vec<DeviceRule> = Vec::new();
        input_devices.push(rule("AirPods", 100, MatchType::Contains));
        input_devices.push(rule("MacBook Pro Microphone", 10, MatchType::Exact));
        assert(rule_views(output_devices@) =~= default_output_rules());
        assert(rule_views(input_devices@) =~= default_input_rules());
        Config {
            general: GeneralConfig::default(),
            notifications: NotificationConfig::default(),
            output_devices,
            input_devices,
        }
    }
}

impl Config {
    /// What every loaded configuration satisfies: the intervals are in
    /// order and the earlier notification field has been migrated away.
    pub open spec fn valid(&self) -> bool {
        &&& self.general.intervals_valid()
        &&& self.notifications.show_device_changes is None
    }

    /// Brings a configuration into the valid form: the intervals are
    /// raised where they are too short and the notification settings are
    /// migrated. A valid configuration comes back unchanged.
    pub fn normalized(self) -> (config: Self)
        ensures
            config.valid(),
            config.general.check_interval_ms == GeneralConfig::clamped_check_interval(
                self.general.check_interval_ms,
            ),
            config.general.poll_interval_ms == GeneralConfig::clamped_poll_interval(
                self.general.check_interval_ms,
                self.general.poll_interval_ms,
            ),
            config.general.log_level == self.general.log_level,
            config.general.daemon_mode == self.general.daemon_mode,
            config.notifications == self.notifications.migrated(),
            config.output_devices == self.output_devices,
            config.input_devices == self.input_devices,
            self.valid() ==> config == self,
    {
        Config {
            general: self.general.clamp_intervals(),
            notifications: self.notifications.migrate_from_old_config(),
            output_devices: self.output_devices,
            input_devices: self.input_devices,
        }
    }
}

} // verus!
