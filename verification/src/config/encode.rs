//! Writing a configuration as a TOML document.
//!
//! What is written is what is read: the document that stands for a
//! configuration is built so that reading it gives the configuration
//! back.

use crate::config::decode::{
    bool_field, decoded_document, loaded, decoded_general, decoded_items, decoded_notifications,
    decoded_rule, decoded_rules, match_type_of, match_type_word, table_field, text_field,
    unsigned_field, DecodeFault, Field,
};
use crate::config::document::{
    array_value, bool_value, insert, integer_value, new_table, render, render_error_text,
    rendered_document, table_value, text_value, value_items,
};
use crate::config::types::{
    rule_views, Config, ConfigView, DeviceRule, GeneralConfig, GeneralView, MatchType,
    NotificationConfig, RuleView, MIN_CHECK_INTERVAL_MS,
};
use crate::error::{ErrorKind, MonitorError};
use vstd::prelude::*;

verus! {

/// The largest integer that a TOML document can hold.
pub const MAX_DOCUMENT_INTEGER: u64 = 0x7fff_ffff_ffff_ffff;

/// What is written of a configuration: everything but the earlier
/// notification field.
pub open spec fn written(config: ConfigView) -> ConfigView {
    ConfigView {
        notifications: NotificationConfig { show_device_changes: None, ..config.notifications },
        ..config
    }
}

/// Whether a configuration can be written: whether its intervals are
/// integers that a TOML document can hold.
pub open spec fn writable(config: ConfigView) -> bool {
    &&& config.general.check_interval_ms <= MAX_DOCUMENT_INTEGER
    &&& config.general.poll_interval_ms <= MAX_DOCUMENT_INTEGER
}

/// A configuration in the valid form, as a load and the default
/// constructor give it, is loaded as it was from every document that
/// holds what is written of it.
pub proof fn lemma_written_loads_back(config: ConfigView, root: toml::Table)
    requires
        config.general.check_interval_ms >= MIN_CHECK_INTERVAL_MS,
        config.general.poll_interval_ms >= config.general.check_interval_ms,
        config.notifications.show_device_changes is None,
        decoded_document(root) == Ok::<ConfigView, DecodeFault>(written(config)),
    ensures
        written(config) == config,
        decoded_document(root) matches Ok(read) && loaded(read) == config,
{
}

/// The word that stands for a match type is read back as that match
/// type.
pub proof fn lemma_match_type_word(match_type: MatchType)
    ensures
        match_type_of(match_type_word(match_type)) == Some(match_type),
{
    reveal_strlit("exact");
    reveal_strlit("contains");
    reveal_strlit("startswith");
    reveal_strlit("endswith");
    reveal_strlit("regex");
    assert("exact"@.len() == 5 && "exact"@[0] == 'e');
    assert("contains"@.len() == 8 && "contains"@[0] == 'c');
    assert("startswith"@.len() == 10);
    assert("endswith"@.len() == 8 && "endswith"@[0] == 'e');
    assert("regex"@.len() == 5 && "regex"@[0] == 'r');
}

/// The keys of the table `general` differ from one another.
proof fn lemma_general_keys()
    ensures
        "check_interval_ms"@.len() == 17,
        "poll_interval_ms"@.len() == 16,
        "log_level"@.len() == 9,
        "daemon_mode"@.len() == 11,
{
    reveal_strlit("check_interval_ms");
    reveal_strlit("poll_interval_ms");
    reveal_strlit("log_level");
    reveal_strlit("daemon_mode");
}

/// The keys of the table `notifications` differ from one another.
proof fn lemma_notification_keys()
    ensures
        "show_device_availability"@.len() == 24,
        "show_switching_actions"@.len() == 22,
        "show_device_changes"@.len() == 19,
{
    reveal_strlit("show_device_availability");
    reveal_strlit("show_switching_actions");
    reveal_strlit("show_device_changes");
}

/// The keys of a rule differ from one another.
proof fn lemma_rule_keys()
    ensures
        "name"@.len() == 4,
        "weight"@.len() == 6,
        "match_type"@.len() == 10,
        "enabled"@.len() == 7,
{
    reveal_strlit("name");
    reveal_strlit("weight");
    reveal_strlit("match_type");
    reveal_strlit("enabled");
}

/// The keys of a document differ from one another.
proof fn lemma_document_keys()
    ensures
        "general"@.len() == 7,
        "notifications"@.len() == 13,
        "output_devices"@.len() == 14,
        "input_devices"@.len() == 13,
        "notifications"@[0] == 'n',
        "input_devices"@[0] == 'i',
{
    reveal_strlit("general");
    reveal_strlit("notifications");
    reveal_strlit("output_devices");
    reveal_strlit("input_devices");
}

/// The word that stands for `match_type`.
pub fn match_type_name(match_type: MatchType) -> (word: &'static str)
    ensures
        word@ == match_type_word(match_type),
{
    match match_type {
        MatchType::Exact => "exact",
        MatchType::Contains => "contains",
        MatchType::StartsWith => "startswith",
        MatchType::EndsWith => "endswith",
        MatchType::Regex => "regex",
    }
}

fn encode_general(general: &GeneralConfig) -> (table: toml::Table)
    requires
        general.check_interval_ms <= MAX_DOCUMENT_INTEGER,
        general.poll_interval_ms <= MAX_DOCUMENT_INTEGER,
    ensures
        unsigned_field(table, "check_interval_ms"@, u64::MAX) == Field::Present(
            general.check_interval_ms,
        ),
        unsigned_field(table, "poll_interval_ms"@, u64::MAX) == Field::Present(
            general.poll_interval_ms,
        ),
        text_field(table, "log_level"@) == Field::Present(general.log_level@),
        bool_field(table, "daemon_mode"@) == Field::Present(general.daemon_mode),
{
    proof {
        lemma_general_keys();
    }
    let mut table = new_table();
    insert(&mut table, "check_interval_ms", integer_value(general.check_interval_ms as i64));
    insert(&mut table, "poll_interval_ms", integer_value(general.poll_interval_ms as i64));
    insert(&mut table, "log_level", text_value(general.log_level.as_str()));
    insert(&mut table, "daemon_mode", bool_value(general.daemon_mode));
    table
}

fn encode_notifications(notifications: &NotificationConfig) -> (table: toml::Table)
    ensures
        bool_field(table, "show_device_availability"@) == Field::Present(
            notifications.show_device_availability,
        ),
        bool_field(table, "show_switching_actions"@) == Field::Present(
            notifications.show_switching_actions,
        ),
        bool_field(table, "show_device_changes"@) is Absent,
{
    proof {
        lemma_notification_keys();
    }
    let mut table = new_table();
    insert(
        &mut table,
        "show_device_availability",
        bool_value(notifications.show_device_availability),
    );
    insert(&mut table, "show_switching_actions", bool_value(notifications.show_switching_actions));
    table
}

fn encode_rule(rule: &DeviceRule, list: Ghost<Seq<char>>) -> (item: toml::Value)
    ensures
        decoded_rule(item, list@) == Ok::<RuleView, DecodeFault>(rule@),
{
    proof {
        lemma_rule_keys();
        lemma_match_type_word(rule.match_type);
    }
    let mut table = new_table();
    insert(&mut table, "name", text_value(rule.name.as_str()));
    insert(&mut table, "weight", integer_value(rule.weight as i64));
    insert(&mut table, "match_type", text_value(match_type_name(rule.match_type)));
    insert(&mut table, "enabled", bool_value(rule.enabled));
    proof {
        assert(text_field(table, "name"@) == Field::Present(rule.name@));
        assert(unsigned_field(table, "weight"@, 0xffff_ffff) == Field::Present(rule.weight as u64));
        assert(text_field(table, "match_type"@) == Field::Present(
            match_type_word(rule.match_type),
        ));
        assert(bool_field(table, "enabled"@) == Field::Present(rule.enabled));
    }
    table_value(table)
}

fn encode_rules(rules: &[DeviceRule], list: Ghost<Seq<char>>) -> (value: toml::Value)
    ensures
        value_items(value) matches Some(items) && decoded_items(items, list@) == Ok::<
            Seq<RuleView>,
            DecodeFault,
        >(rule_views(rules@)),
{
    let mut items: Vec<toml::Value> = Vec::new();
    let mut index: usize = 0;
    assert(rule_views(rules@).take(0) =~= Seq::<RuleView>::empty());
    while index < rules.len()
        invariant
            index <= rules@.len(),
            decoded_items(items@, list@) == Ok::<Seq<RuleView>, DecodeFault>(
                rule_views(rules@).take(index as int),
            ),
        decreases rules@.len() - index,
    {
        let item = encode_rule(&rules[index], list);
        let ghost before = items@;
        items.push(item);
        proof {
            assert(items@.drop_last() == before);
            assert(items@.last() == item);
            assert(rule_views(rules@).take(index + 1) == rule_views(rules@).take(
                index as int,
            ).push(rules@[index as int]@));
        }
        index += 1;
    }
    assert(rule_views(rules@).take(rules@.len() as int) == rule_views(rules@));
    array_value(items)
}

/// The document that stands for `config`, or `None` where an interval is
/// too large to be written. Reading the document gives back what is
/// written of `config`.
pub fn encode_document(config: &Config) -> (document: Option<toml::Table>)
    ensures
        match document {
            Some(root) => writable(config@) && decoded_document(root) == Ok::<
                ConfigView,
                DecodeFault,
            >(written(config@)),
            None => !writable(config@),
        },
{
    if config.general.check_interval_ms > MAX_DOCUMENT_INTEGER || config.general.poll_interval_ms
        > MAX_DOCUMENT_INTEGER {
        return None;
    }
    proof {
        lemma_document_keys();
    }
    let general = encode_general(&config.general);
    let notifications = encode_notifications(&config.notifications);
    let output_devices = encode_rules(config.output_devices.as_slice(), Ghost("output_devices"@));
    let input_devices = encode_rules(config.input_devices.as_slice(), Ghost("input_devices"@));
    let mut root = new_table();
    insert(&mut root, "general", table_value(general));
    insert(&mut root, "notifications", table_value(notifications));
    insert(&mut root, "output_devices", output_devices);
    insert(&mut root, "input_devices", input_devices);
    proof {
        assert(table_field(root, "general"@) == Field::Present(general));
        assert(table_field(root, "notifications"@) == Field::Present(notifications));
        assert(decoded_general(root) == Ok::<GeneralView, DecodeFault>(config@.general));
        assert(decoded_notifications(root) == Ok::<NotificationConfig, DecodeFault>(
            written(config@).notifications,
        ));
        assert(decoded_rules(root, "output_devices"@) == Ok::<Seq<RuleView>, DecodeFault>(
            config@.output_devices,
        ));
        assert(decoded_rules(root, "input_devices"@) == Ok::<Seq<RuleView>, DecodeFault>(
            config@.input_devices,
        ));
    }
    Some(root)
}

/// Whether `text` is the rendering of a document which, when read,
/// gives back what is written of `config`.
pub open spec fn renders_to(config: ConfigView, text: Seq<char>) -> bool {
    exists|root: toml::Table| #[trigger]
        rendered_document(root) == Some(text) && decoded_document(root) == Ok::<
            ConfigView,
            DecodeFault,
        >(written(config))
}

/// Whether some document that stands for `config` cannot be rendered.
pub open spec fn cannot_render(config: ConfigView) -> bool {
    exists|root: toml::Table| #[trigger]
        rendered_document(root) is None && decoded_document(root) == Ok::<
            ConfigView,
            DecodeFault,
        >(written(config))
}

impl Config {
    /// The configuration as the text of a TOML document, or a
    /// configuration error where it cannot be written: where an interval
    /// is too large or the document cannot be rendered. The text is that
    /// of a document which, when read, gives back what is written of the
    /// configuration.
    pub fn to_toml_string(&self) -> (text: Result<String, MonitorError>)
        ensures
            match text {
                Ok(text) => writable(self@) && renders_to(self@, text@),
                Err(error) => error.kind == ErrorKind::Config && (!writable(self@)
                    || cannot_render(self@)),
            },
            !writable(self@) ==> text is Err,
    {
        let root = match encode_document(self) {
            Some(root) => root,
            None => {
                return Err(
                    MonitorError::new(
                        ErrorKind::Config,
                        "Failed to serialize configuration: interval out of range",
                    ),
                );
            },
        };
        match render(&root) {
            Ok(text) => Ok(text),
            Err(error) => {
                let words = render_error_text(&error);
                Err(
                    MonitorError::with_detail(
                        ErrorKind::Config,
                        "Failed to serialize configuration: ",
                        words.as_str(),
                    ),
                )
            },
        }
    }
}

} // verus!
