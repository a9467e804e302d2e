//! Reading a configuration out of a TOML document.
//!
//! The tables `general` and `notifications` and the arrays
//! `output_devices` and `input_devices` may each be left out. Within
//! `general` and within a rule every key but `poll_interval_ms` must be
//! there. Keys that are not known are passed over.

use crate::config::document::{
    as_array, as_bool, as_integer, as_str, as_table, get, parse, parse_error_text,
    parsed_document, table_entry, value_bool, value_integer, value_items, value_table,
    value_text,
};
use crate::config::types::{
    equal_text, rule_views, Config, ConfigView, DeviceRule, GeneralConfig, GeneralView,
    MatchType, NotificationConfig, RuleView, DEFAULT_CHECK_INTERVAL_MS,
    DEFAULT_POLL_INTERVAL_MS,
};
use crate::error::{ErrorKind, MonitorError};
use vstd::prelude::*;
use vstd::string::*;

verus! {

/// What a table holds under a key, seen as a value of one type.
pub enum Field<T> {
    /// The table has no such key.
    Absent,
    /// The table has the key and its value is of the type.
    Present(T),
    /// The table has the key and its value is of another type, or out of
    /// the range of the type.
    Invalid,
}

/// Why a document is not a configuration.
#[derive(Debug, Clone, Copy, PartialEq, Eq, Structural)]
pub enum FaultKind {
    /// A key that must be there is missing.
    Missing,
    /// A value is of the wrong type, out of range or not a known word.
    Invalid,
}

/// The key at which a document fails to be a configuration, and why.
#[derive(Debug)]
pub struct DecodeError {
    pub kind: FaultKind,
    pub field: String,
}

/// The mathematical value of a [`DecodeError`].
pub struct DecodeFault {
    pub kind: FaultKind,
    pub field: Seq<char>,
}

impl View for DecodeError {
    type V = DecodeFault;

    open spec fn view(&self) -> DecodeFault {
        DecodeFault { kind: self.kind, field: self.field@ }
    }
}

/// The boolean under `key`.
pub open spec fn bool_field(table: toml::Table, key: Seq<char>) -> Field<bool> {
    match table_entry(table, key) {
        None => Field::Absent,
        Some(value) => match value_bool(value) {
            Some(flag) => Field::Present(flag),
            None => Field::Invalid,
        },
    }
}

/// The integer under `key`, where it lies between zero and `limit`.
pub open spec fn unsigned_field(table: toml::Table, key: Seq<char>, limit: u64) -> Field<u64> {
    match table_entry(table, key) {
        None => Field::Absent,
        Some(value) => match value_integer(value) {
            Some(number) if 0 <= number <= limit => Field::Present(number as u64),
            _ => Field::Invalid,
        },
    }
}

/// The string under `key`.
pub open spec fn text_field(table: toml::Table, key: Seq<char>) -> Field<Seq<char>> {
    match table_entry(table, key) {
        None => Field::Absent,
        Some(value) => match value_text(value) {
            Some(text) => Field::Present(text),
            None => Field::Invalid,
        },
    }
}

/// The table under `key`.
pub open spec fn table_field(table: toml::Table, key: Seq<char>) -> Field<toml::Table> {
    match table_entry(table, key) {
        None => Field::Absent,
        Some(value) => match value_table(value) {
            Some(inner) => Field::Present(inner),
            None => Field::Invalid,
        },
    }
}

/// The items of the array under `key`.
pub open spec fn items_field(table: toml::Table, key: Seq<char>) -> Field<Seq<toml::Value>> {
    match table_entry(table, key) {
        None => Field::Absent,
        Some(value) => match value_items(value) {
            Some(items) => Field::Present(items),
            None => Field::Invalid,
        },
    }
}

/// The value of a key that must be there.
pub open spec fn required<T>(field: Field<T>, key: Seq<char>) -> Result<T, DecodeFault> {
    match field {
        Field::Absent => Err(DecodeFault { kind: FaultKind::Missing, field: key }),
        Field::Present(value) => Ok(value),
        Field::Invalid => Err(DecodeFault { kind: FaultKind::Invalid, field: key }),
    }
}

/// The value of a key that may be left out.
pub open spec fn optional<T>(field: Field<T>, key: Seq<char>) -> Result<Option<T>, DecodeFault> {
    match field {
        Field::Absent => Ok(None),
        Field::Present(value) => Ok(Some(value)),
        Field::Invalid => Err(DecodeFault { kind: FaultKind::Invalid, field: key }),
    }
}

/// The match type that a word of the configuration stands for.
pub open spec fn match_type_of(word: Seq<char>) -> Option<MatchType> {
    if word == "exact"@ {
        Some(MatchType::Exact)
    } else if word == "contains"@ {
        Some(MatchType::Contains)
    } else if word == "startswith"@ {
        Some(MatchType::StartsWith)
    } else if word == "endswith"@ {
        Some(MatchType::EndsWith)
    } else if word == "regex"@ {
        Some(MatchType::Regex)
    } else {
        None
    }
}

/// The word of the configuration that stands for a match type.
pub open spec fn match_type_word(match_type: MatchType) -> Seq<char> {
    match match_type {
        MatchType::Exact => "exact"@,
        MatchType::Contains => "contains"@,
        MatchType::StartsWith => "startswith"@,
        MatchType::EndsWith => "endswith"@,
        MatchType::Regex => "regex"@,
    }
}

/// The table `general`: where it is left out, the default settings; else
/// the keys `check_interval_ms`, `log_level` and `daemon_mode`, which must
/// be there, and `poll_interval_ms`, which may be left out.
pub open spec fn decoded_general(root: toml::Table) -> Result<GeneralView, DecodeFault> {
    match table_field(root, "general"@) {
        Field::Absent => Ok(
            GeneralView {
                check_interval_ms: DEFAULT_CHECK_INTERVAL_MS,
                poll_interval_ms: DEFAULT_POLL_INTERVAL_MS,
                log_level: "info"@,
                daemon_mode: false,
            },
        ),
        Field::Invalid => Err(DecodeFault { kind: FaultKind::Invalid, field: "general"@ }),
        Field::Present(table) => match required(
            unsigned_field(table, "check_interval_ms"@, u64::MAX),
            "check_interval_ms"@,
        ) {
            Err(fault) => Err(fault),
            Ok(check_interval_ms) => match optional(
                unsigned_field(table, "poll_interval_ms"@, u64::MAX),
                "poll_interval_ms"@,
            ) {
                Err(fault) => Err(fault),
                Ok(poll_interval_ms) => match required(
                    text_field(table, "log_level"@),
                    "log_level"@,
                ) {
                    Err(fault) => Err(fault),
                    Ok(log_level) => match required(
                        bool_field(table, "daemon_mode"@),
                        "daemon_mode"@,
                    ) {
                        Err(fault) => Err(fault),
                        Ok(daemon_mode) => Ok(
                            GeneralView {
                                check_interval_ms,
                                poll_interval_ms: match poll_interval_ms {
                                    Some(poll_interval_ms) => poll_interval_ms,
                                    None => DEFAULT_POLL_INTERVAL_MS,
                                },
                                log_level,
                                daemon_mode,
                            },
                        ),
                    },
                },
            },
        },
    }
}

/// The table `notifications`: where it is left out, the default
/// settings; else its three keys, each of which may be left out, migrated
/// with the knowledge of whether `show_device_availability` was there.
pub open spec fn decoded_notifications(
    root: toml::Table,
) -> Result<NotificationConfig, DecodeFault> {
    match table_field(root, "notifications"@) {
        Field::Absent => Ok(
            NotificationConfig {
                show_device_availability: false,
                show_switching_actions: true,
                show_device_changes: None,
            },
        ),
        Field::Invalid => Err(DecodeFault { kind: FaultKind::Invalid, field: "notifications"@ }),
        Field::Present(table) => match optional(
            bool_field(table, "show_device_availability"@),
            "show_device_availability"@,
        ) {
            Err(fault) => Err(fault),
            Ok(availability) => match optional(
                bool_field(table, "show_switching_actions"@),
                "show_switching_actions"@,
            ) {
                Err(fault) => Err(fault),
                Ok(switching) => match optional(
                    bool_field(table, "show_device_changes"@),
                    "show_device_changes"@,
                ) {
                    Err(fault) => Err(fault),
                    Ok(changes) => Ok(
                        (NotificationConfig {
                            show_device_availability: match availability {
                                Some(shown) => shown,
                                None => false,
                            },
                            show_switching_actions: match switching {
                                Some(shown) => shown,
                                None => true,
                            },
                            show_device_changes: changes,
                        }).migrated_with_presence(availability is Some),
                    ),
                },
            },
        },
    }
}

/// A rule: a table with the keys `name`, `weight`, `match_type` and
/// `enabled`, all of which must be there.
pub open spec fn decoded_rule(item: toml::Value, list: Seq<char>) -> Result<RuleView, DecodeFault> {
    match value_table(item) {
        None => Err(DecodeFault { kind: FaultKind::Invalid, field: list }),
        Some(table) => match required(text_field(table, "name"@), "name"@) {
            Err(fault) => Err(fault),
            Ok(name) => match required(
                unsigned_field(table, "weight"@, 0xffff_ffff),
                "weight"@,
            ) {
                Err(fault) => Err(fault),
                Ok(weight) => match required(text_field(table, "match_type"@), "match_type"@) {
                    Err(fault) => Err(fault),
                    Ok(word) => match match_type_of(word) {
                        None => Err(
                            DecodeFault { kind: FaultKind::Invalid, field: "match_type"@ },
                        ),
                        Some(match_type) => match required(
                            bool_field(table, "enabled"@),
                            "enabled"@,
                        ) {
                            Err(fault) => Err(fault),
                            Ok(enabled) => Ok(
                                RuleView { name, weight: weight as u32, match_type, enabled },
                            ),
                        },
                    },
                },
            },
        },
    }
}

/// The rules that a list of items stands for, in order; the fault of the
/// first item that is not a rule.
pub open spec fn decoded_items(items: Seq<toml::Value>, list: Seq<char>) -> Result<
    Seq<RuleView>,
    DecodeFault,
>
    decreases items.len(),
{
    if items.len() == 0 {
        Ok(Seq::empty())
    } else {
        match decoded_items(items.drop_last(), list) {
            Err(fault) => Err(fault),
            Ok(rules) => match decoded_rule(items.last(), list) {
                Err(fault) => Err(fault),
                Ok(rule) => Ok(rules.push(rule)),
            },
        }
    }
}

/// The array of rules under the key `list`: where it is left out, no
/// rule.
pub open spec fn decoded_rules(
    root: toml::Table,
    list: Seq<char>,
) -> Result<Seq<RuleView>, DecodeFault> {
    match items_field(root, list) {
        Field::Absent => Ok(Seq::empty()),
        Field::Invalid => Err(DecodeFault { kind: FaultKind::Invalid, field: list }),
        Field::Present(items) => decoded_items(items, list),
    }
}

/// The configuration that a document stands for, as it is written: the
/// fault of the first part that fails, in the order `general`,
/// `notifications`, `output_devices`, `input_devices`.
pub open spec fn decoded_document(root: toml::Table) -> Result<ConfigView, DecodeFault> {
    match decoded_general(root) {
        Err(fault) => Err(fault),
        Ok(general) => match decoded_notifications(root) {
            Err(fault) => Err(fault),
            Ok(notifications) => match decoded_rules(root, "output_devices"@) {
                Err(fault) => Err(fault),
                Ok(output_devices) => match decoded_rules(root, "input_devices"@) {
                    Err(fault) => Err(fault),
                    Ok(input_devices) => Ok(
                        ConfigView { general, notifications, output_devices, input_devices },
                    ),
                },
            },
        },
    }
}

/// A configuration as it is loaded: the intervals are raised where they
/// are too short.
pub open spec fn loaded(config: ConfigView) -> ConfigView {
    ConfigView {
        general: GeneralView {
            check_interval_ms: GeneralConfig::clamped_check_interval(
                config.general.check_interval_ms,
            ),
            poll_interval_ms: GeneralConfig::clamped_poll_interval(
                config.general.check_interval_ms,
                config.general.poll_interval_ms,
            ),
            ..config.general
        },
        notifications: config.notifications.migrated(),
        ..config
    }
}

/// The configuration that a text is loaded as, or `None` where the text
/// is not a TOML document or the document is not a configuration.
pub open spec fn loaded_from(content: Seq<char>) -> Option<ConfigView> {
    match parsed_document(content) {
        None => None,
        Some(root) => match decoded_document(root) {
            Err(_) => None,
            Ok(config) => Some(loaded(config)),
        },
    }
}

fn fault<T>(kind: FaultKind, field: &str) -> (failed: Result<T, DecodeError>)
    ensures
        failed matches Err(error) && error@ == (DecodeFault { kind, field: field@ }),
{
    Err(DecodeError { kind, field: field.to_owned() })
}

fn read_bool(table: &toml::Table, key: &str) -> (field: Field<bool>)
    ensures
        field == bool_field(*table, key@),
{
    match get(table, key) {
        None => Field::Absent,
        Some(value) => match as_bool(value) {
            Some(flag) => Field::Present(flag),
            None => Field::Invalid,
        },
    }
}

fn read_unsigned(table: &toml::Table, key: &str, limit: u64) -> (field: Field<u64>)
    ensures
        field == unsigned_field(*table, key@, limit),
{
    match get(table, key) {
        None => Field::Absent,
        Some(value) => match as_integer(value) {
            Some(number) => {
                if number >= 0 && number as u64 <= limit {
                    Field::Present(number as u64)
                } else {
                    Field::Invalid
                }
            },
            None => Field::Invalid,
        },
    }
}

fn read_text(table: &toml::Table, key: &str) -> (field: Field<String>)
    ensures
        match field {
            Field::Absent => text_field(*table, key@) is Absent,
            Field::Present(text) => text_field(*table, key@) == Field::Present(text@),
            Field::Invalid => text_field(*table, key@) is Invalid,
        },
{
    match get(table, key) {
        None => Field::Absent,
        Some(value) => match as_str(value) {
            Some(text) => Field::Present(text.to_owned()),
            None => Field::Invalid,
        },
    }
}

fn require<T>(field: Field<T>, key: &str) -> (value: Result<T, DecodeError>)
    ensures
        match value {
            Ok(value) => field == Field::Present(value),
            Err(error) => required(field, key@) == Err::<T, DecodeFault>(error@),
        },
{
    match field {
        Field::Absent => fault(FaultKind::Missing, key),
        Field::Present(value) => Ok(value),
        Field::Invalid => fault(FaultKind::Invalid, key),
    }
}

fn allow<T>(field: Field<T>, key: &str) -> (value: Result<Option<T>, DecodeError>)
    ensures
        match value {
            Ok(Some(value)) => field == Field::Present(value),
            Ok(None) => field is Absent,
            Err(error) => optional(field, key@) == Err::<Option<T>, DecodeFault>(error@),
        },
{
    match field {
        Field::Absent => Ok(None),
        Field::Present(value) => Ok(Some(value)),
        Field::Invalid => fault(FaultKind::Invalid, key),
    }
}

/// The match type that `word` stands for.
pub fn parse_match_type(word: &str) -> (match_type: Option<MatchType>)
    ensures
        match_type == match_type_of(word@),
{
    if equal_text(word, "exact") {
        Some(MatchType::Exact)
    } else if equal_text(word, "contains") {
        Some(MatchType::Contains)
    } else if equal_text(word, "startswith") {
        Some(MatchType::StartsWith)
    } else if equal_text(word, "endswith") {
        Some(MatchType::EndsWith)
    } else if equal_text(word, "regex") {
        Some(MatchType::Regex)
    } else {
        None
    }
}

fn decode_general(root: &toml::Table) -> (general: Result<GeneralConfig, DecodeError>)
    ensures
        match general {
            Ok(general) => decoded_general(*root) == Ok::<GeneralView, DecodeFault>(general@),
            Err(error) => decoded_general(*root) == Err::<GeneralView, DecodeFault>(error@),
        },
{
    let table = match get(root, "general") {
        None => {
            return Ok(GeneralConfig::default());
        },
        Some(value) => match as_table(value) {
            Some(table) => table,
            None => {
                return fault(FaultKind::Invalid, "general");
            },
        },
    };
    let check_interval_ms = require(
        read_unsigned(table, "check_interval_ms", u64::MAX),
        "check_interval_ms",
    )?;
    let poll_interval_ms = allow(
        read_unsigned(table, "poll_interval_ms", u64::MAX),
        "poll_interval_ms",
    )?;
    let log_level = require(read_text(table, "log_level"), "log_level")?;
    let daemon_mode = require(read_bool(table, "daemon_mode"), "daemon_mode")?;
    Ok(
        GeneralConfig {
            check_interval_ms,
            poll_interval_ms: match poll_interval_ms {
                Some(poll_interval_ms) => poll_interval_ms,
                None => DEFAULT_POLL_INTERVAL_MS,
            },
            log_level,
            daemon_mode,
        },
    )
}

fn decode_notifications(root: &toml::Table) -> (notifications: Result<
    NotificationConfig,
    DecodeError,
>)
    ensures
        match notifications {
            Ok(notifications) => decoded_notifications(*root) == Ok::<
                NotificationConfig,
                DecodeFault,
            >(notifications),
            Err(error) => decoded_notifications(*root) == Err::<NotificationConfig, DecodeFault>(
                error@,
            ),
        },
{
    let table = match get(root, "notifications") {
        None => {
            return Ok(NotificationConfig::default());
        },
        Some(value) => match as_table(value) {
            Some(table) => table,
            None => {
                return fault(FaultKind::Invalid, "notifications");
            },
        },
    };
    let availability = allow(
        read_bool(table, "show_device_availability"),
        "show_device_availability",
    )?;
    let switching = allow(read_bool(table, "show_switching_actions"), "show_switching_actions")?;
    let changes = allow(read_bool(table, "show_device_changes"), "show_device_changes")?;
    let read = NotificationConfig {
        show_device_availability: match availability {
            Some(shown) => shown,
            None => false,
        },
        show_switching_actions: match switching {
            Some(shown) => shown,
            None => crate::config::types::default_show_switching_actions(),
        },
        show_device_changes: changes,
    };
    Ok(read.migrate_with_presence_info(availability.is_some()))
}

fn decode_rule(item: &toml::Value, list: &str) -> (rule: Result<DeviceRule, DecodeError>)
    ensures
        match rule {
            Ok(rule) => decoded_rule(*item, list@) == Ok::<RuleView, DecodeFault>(rule@),
            Err(error) => decoded_rule(*item, list@) == Err::<RuleView, DecodeFault>(error@),
        },
{
    let table = match as_table(item) {
        Some(table) => table,
        None => {
            return fault(FaultKind::Invalid, list);
        },
    };
    let name = require(read_text(table, "name"), "name")?;
    let weight = require(read_unsigned(table, "weight", 0xffff_ffff), "weight")?;
    let word = require(read_text(table, "match_type"), "match_type")?;
    let match_type = match parse_match_type(word.as_str()) {
        Some(match_type) => match_type,
        None => {
            return fault(FaultKind::Invalid, "match_type");
        },
    };
    let enabled = require(read_bool(table, "enabled"), "enabled")?;
    Ok(DeviceRule { name, weight: weight as u32, match_type, enabled })
}

fn decode_rules(root: &toml::Table, list: &str) -> (rules: Result<Vec<DeviceRule>, DecodeError>)
    ensures
        match rules {
            Ok(rules) => decoded_rules(*root, list@) == Ok::<Seq<RuleView>, DecodeFault>(
                rule_views(rules@),
            ),
            Err(error) => decoded_rules(*root, list@) == Err::<Seq<RuleView>, DecodeFault>(
                error@,
            ),
        },
{
    let items = match get(root, list) {
        None => {
            let rules: Vec<DeviceRule> = Vec::new();
            assert(rule_views(rules@) =~= Seq::<RuleView>::empty());
            return Ok(rules);
        },
        Some(value) => match as_array(value) {
            Some(items) => items,
            None => {
                return fault(FaultKind::Invalid, list);
            },
        },
    };
    let mut rules: Vec<DeviceRule> = Vec::new();
    let mut index: usize = 0;
    assert(items@.take(0) =~= Seq::<toml::Value>::empty());
    assert(rule_views(rules@) =~= Seq::<RuleView>::empty());
    while index < items.len()
        invariant
            index <= items@.len(),
            items_field(*root, list@) == Field::Present(items@),
            decoded_items(items@.take(index as int), list@) == Ok::<Seq<RuleView>, DecodeFault>(
                rule_views(rules@),
            ),
        decreases items@.len() - index,
    {
        proof {
            assert(items@.take(index + 1).drop_last() == items@.take(index as int));
            assert(items@.take(index + 1).last() == items@[index as int]);
        }
        match decode_rule(&items[index], list) {
            Ok(rule) => {
                let ghost before = rules@;
                rules.push(rule);
                assert(rule_views(rules@) =~= rule_views(before).push(rule@));
            },
            Err(error) => {
                proof {
                    lemma_fault_stays(items@, index + 1, list@);
                }
                return Err(error);
            },
        }
        index += 1;
    }
    assert(items@.take(items@.len() as int) == items@);
    Ok(rules)
}

/// A fault among the first `upto` items is the fault of the whole list.
proof fn lemma_fault_stays(items: Seq<toml::Value>, upto: int, list: Seq<char>)
    requires
        0 <= upto <= items.len(),
        decoded_items(items.take(upto), list) is Err,
    ensures
        decoded_items(items, list) == decoded_items(items.take(upto), list),
    decreases items.len() - upto,
{
    if upto < items.len() {
        assert(items.take(upto + 1).drop_last() == items.take(upto));
        lemma_fault_stays(items, upto + 1, list);
    } else {
        assert(items.take(upto) == items);
    }
}

/// Reads a configuration out of a document, as it is written.
pub fn decode_document(root: &toml::Table) -> (config: Result<Config, DecodeError>)
    ensures
        match config {
            Ok(config) => decoded_document(*root) == Ok::<ConfigView, DecodeFault>(config@),
            Err(error) => decoded_document(*root) == Err::<ConfigView, DecodeFault>(error@),
        },
{
    let general = decode_general(root)?;
    let notifications = decode_notifications(root)?;
    let output_devices = decode_rules(root, "output_devices")?;
    let input_devices = decode_rules(root, "input_devices")?;
    Ok(Config { general, notifications, output_devices, input_devices })
}

impl DecodeError {
    /// The words that describe the fault.
    pub open spec fn description(fault: DecodeFault) -> Seq<char> {
        match fault.kind {
            FaultKind::Missing => "missing field `"@ + fault.field + "`"@,
            FaultKind::Invalid => "invalid value for `"@ + fault.field + "`"@,
        }
    }

    /// The words that describe the fault.
    pub fn to_string(&self) -> (words: String)
        ensures
            words@ == Self::description(self@),
    {
        let mut words = match self.kind {
            FaultKind::Missing => "missing field `".to_owned(),
            FaultKind::Invalid => "invalid value for `".to_owned(),
        };
        words.append(self.field.as_str());
        words.append("`");
        words
    }
}

impl Config {
    /// Loads a configuration from the text of a TOML document. The
    /// notification settings are migrated, with an explicit
    /// `show_device_availability` winning over the earlier field, and the
    /// intervals are raised where they are too short. A text that is not
    /// a TOML document, or a document that is not a configuration, is a
    /// configuration error.
    pub fn from_toml_str(content: &str) -> (config: Result<Config, MonitorError>)
        ensures
            match config {
                Ok(config) => loaded_from(content@) == Some(config@) && config.valid(),
                Err(error) => loaded_from(content@) is None && error.kind == ErrorKind::Config,
            },
    {
        let root = match parse(content) {
            Ok(root) => root,
            Err(error) => {
                let words = parse_error_text(&error);
                return Err(MonitorError::new(ErrorKind::Config, words.as_str()));
            },
        };
        match decode_document(&root) {
            Ok(config) => Ok(config.normalized()),
            Err(error) => {
                let words = error.to_string();
                Err(MonitorError::new(ErrorKind::Config, words.as_str()))
            },
        }
    }
}

} // verus!
