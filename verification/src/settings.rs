//! Loading and saving the settings record.
//!
//! The persisted store holds three keys the shell cares about: `proxy`
//! (string), `theme` (string) and `autolaunch` (boolean). Loading reads the
//! three keys and replaces each missing or ill-typed value with its default;
//! saving takes a partial record and overwrites exactly the fields that are
//! present and well-typed, silently ignoring the rest. Flushing the store to
//! disk is the host's work and happens after the save logic has run.

use vstd::prelude::*;
use vstd::string::StringExecFns;
use crate::value::{JsonValue, JsonValueView};

verus! {

/// The persisted store as the settings logic sees it: the three settings
/// keys, each either absent or bound to a JSON-like value. Keys the store
/// file may hold besides these are never read nor written by the shell, so
/// they stay outside the model.
#[derive(Clone, Debug, PartialEq)]
pub struct StoreModel {
    pub proxy: Option<JsonValue>,
    pub theme: Option<JsonValue>,
    pub autolaunch: Option<JsonValue>,
}

/// The mathematical shape of a [`StoreModel`].
pub struct StoreModelView {
    pub proxy: Option<JsonValueView>,
    pub theme: Option<JsonValueView>,
    pub autolaunch: Option<JsonValueView>,
}

impl View for StoreModel {
    type V = StoreModelView;

    open spec fn view(&self) -> StoreModelView {
        StoreModelView {
            proxy: match self.proxy {
                Some(v) => Some(v@),
                None => None,
            },
            theme: match self.theme {
                Some(v) => Some(v@),
                None => None,
            },
            autolaunch: match self.autolaunch {
                Some(v) => Some(v@),
                None => None,
            },
        }
    }
}

impl StoreModel {
    /// A store holding none of the three settings keys, as a fresh store
    /// file presents itself.
    pub fn empty() -> (s: StoreModel)
        ensures
            s@ == (StoreModelView { proxy: None, theme: None, autolaunch: None }),
    {
        StoreModel { proxy: None, theme: None, autolaunch: None }
    }
}

/// The settings record handed to the rest of the application: every field
/// present and well-typed, defaults filled in.
#[derive(Clone, Debug, PartialEq)]
pub struct SettingsRecord {
    pub proxy: String,
    pub theme: String,
    pub autolaunch: bool,
}

/// The mathematical shape of a [`SettingsRecord`].
pub struct SettingsRecordView {
    pub proxy: Seq<char>,
    pub theme: Seq<char>,
    pub autolaunch: bool,
}

impl View for SettingsRecord {
    type V = SettingsRecordView;

    open spec fn view(&self) -> SettingsRecordView {
        SettingsRecordView {
            proxy: self.proxy@,
            theme: self.theme@,
            autolaunch: self.autolaunch,
        }
    }
}

/// A save request: a JSON object in which each of the three settings keys
/// may be absent, well-typed, or bound to a value of the wrong shape.
#[derive(Clone, Debug, PartialEq)]
pub struct SettingsInput {
    pub proxy: Option<JsonValue>,
    pub theme: Option<JsonValue>,
    pub autolaunch: Option<JsonValue>,
}

/// The mathematical shape of a [`SettingsInput`].
pub struct SettingsInputView {
    pub proxy: Option<JsonValueView>,
    pub theme: Option<JsonValueView>,
    pub autolaunch: Option<JsonValueView>,
}

impl View for SettingsInput {
    type V = SettingsInputView;

    open spec fn view(&self) -> SettingsInputView {
        SettingsInputView {
            proxy: match self.proxy {
                Some(v) => Some(v@),
                None => None,
            },
            theme: match self.theme {
                Some(v) => Some(v@),
                None => None,
            },
            autolaunch: match self.autolaunch {
                Some(v) => Some(v@),
                None => None,
            },
        }
    }
}

/// The string a stored value yields: its characters when it is a string,
/// the default when it is absent or of any other shape.
pub open spec fn str_or(stored: Option<JsonValueView>, default: Seq<char>) -> Seq<char> {
    match stored {
        Some(JsonValueView::Str(s)) => s,
        _ => default,
    }
}

/// The boolean a stored value yields: itself when it is a boolean, the
/// default when it is absent or of any other shape.
pub open spec fn bool_or(stored: Option<JsonValueView>, default: bool) -> bool {
    match stored {
        Some(JsonValueView::Bool(b)) => b,
        _ => default,
    }
}

/// What loading returns for a given store: each key read, ill-typed and
/// missing values replaced by the defaults (empty proxy, light theme, no
/// autolaunch).
pub open spec fn load_spec(store: StoreModelView) -> SettingsRecordView {
    SettingsRecordView {
        proxy: str_or(store.proxy, Seq::empty()),
        theme: str_or(store.theme, "light"@),
        autolaunch: bool_or(store.autolaunch, false),
    }
}

/// A string field after a save: the given value when it is a string,
/// the stored value untouched otherwise.
pub open spec fn merge_str(
    stored: Option<JsonValueView>,
    given: Option<JsonValueView>,
) -> Option<JsonValueView> {
    match given {
        Some(JsonValueView::Str(s)) => Some(JsonValueView::Str(s)),
        _ => stored,
    }
}

/// A boolean field after a save: the given value when it is a boolean,
/// the stored value untouched otherwise.
pub open spec fn merge_bool(
    stored: Option<JsonValueView>,
    given: Option<JsonValueView>,
) -> Option<JsonValueView> {
    match given {
        Some(JsonValueView::Bool(b)) => Some(JsonValueView::Bool(b)),
        _ => stored,
    }
}

/// What the store holds after a save: each well-typed field of the request
/// overwrites its key, every other field of the request is ignored.
pub open spec fn save_spec(store: StoreModelView, given: SettingsInputView) -> StoreModelView {
    StoreModelView {
        proxy: merge_str(store.proxy, given.proxy),
        theme: merge_str(store.theme, given.theme),
        autolaunch: merge_bool(store.autolaunch, given.autolaunch),
    }
}

/// Reads the three settings keys from the store and returns the merged
/// record, replacing each missing or ill-typed value with its default.
/// Absence is normal: there is no failure path.
pub fn load_settings(store: &StoreModel) -> (r: SettingsRecord)
    ensures
        r@ == load_spec(store@),
{
    let proxy: String = match &store.proxy {
        Some(JsonValue::Str(s)) => s.clone(),
        _ => String::new(),
    };
    let theme: String = match &store.theme {
        Some(JsonValue::Str(s)) => s.clone(),
        _ => String::from_str("light"),
    };
    let autolaunch: bool = match &store.autolaunch {
        Some(JsonValue::Bool(b)) => *b,
        _ => false,
    };
    SettingsRecord { proxy, theme, autolaunch }
}

/// Applies a save request to the store: each of the three fields that is
/// present and well-typed in the request overwrites the stored key; fields
/// absent or of the wrong shape are silently ignored. Flushing the updated
/// store to disk is the caller's step, and the only one that can fail.
pub fn save_settings(store: &mut StoreModel, input: SettingsInput)
    ensures
        final(store)@ == save_spec(old(store)@, input@),
{
    let SettingsInput { proxy, theme, autolaunch } = input;
    match proxy {
        Some(JsonValue::Str(s)) => {
            store.proxy = Some(JsonValue::Str(s));
        }
        _ => {}
    }
    match theme {
        Some(JsonValue::Str(s)) => {
            store.theme = Some(JsonValue::Str(s));
        }
        _ => {}
    }
    match autolaunch {
        Some(JsonValue::Bool(b)) => {
            store.autolaunch = Some(JsonValue::Bool(b));
        }
        _ => {}
    }
}

/// A full record as a save request: every field present and well-typed,
/// so that saving it overwrites all three keys with the record's values.
pub open spec fn input_of_record(r: SettingsRecordView) -> SettingsInputView {
    SettingsInputView {
        proxy: Some(JsonValueView::Str(r.proxy)),
        theme: Some(JsonValueView::Str(r.theme)),
        autolaunch: Some(JsonValueView::Bool(r.autolaunch)),
    }
}

impl SettingsRecord {
    /// The record as a full, well-typed save request.
    pub fn to_input(&self) -> (i: SettingsInput)
        ensures
            i@ == input_of_record(self@),
    {
        SettingsInput {
            proxy: Some(JsonValue::Str(self.proxy.clone())),
            theme: Some(JsonValue::Str(self.theme.clone())),
            autolaunch: Some(JsonValue::Bool(self.autolaunch)),
        }
    }
}

/// Saving a request that carries only a proxy string sets the proxy to it
/// and leaves the loaded theme and autolaunch exactly as they were before.
pub proof fn lemma_save_proxy_only(store: StoreModelView, p: Seq<char>)
    ensures
        ({
            let given = SettingsInputView {
                proxy: Some(JsonValueView::Str(p)),
                theme: None,
                autolaunch: None,
            };
            let after = load_spec(save_spec(store, given));
            after.proxy == p && after.theme == load_spec(store).theme && after.autolaunch
                == load_spec(store).autolaunch
        }),
{
}

/// Saving a request whose theme is not a string (a number, a boolean,
/// anything but a string) leaves the stored theme unchanged.
pub proof fn lemma_save_ill_typed_theme(store: StoreModelView, given: SettingsInputView)
    requires
        !(given.theme matches Some(JsonValueView::Str(_))),
    ensures
        save_spec(store, given).theme == store.theme,
{
}

/// Saving back exactly what loading returned, then loading again, yields
/// the same record: load(save(load())) equals load().
pub proof fn lemma_save_load_idempotent(store: StoreModelView)
    ensures
        load_spec(save_spec(store, input_of_record(load_spec(store)))) == load_spec(store),
{
}

} // verus!
