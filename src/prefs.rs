//! The user's preferences that outlive the process, and how a stored record
//! of them, possibly written by an older version with fewer fields, is read
//! back.
use vstd::prelude::*;

verus! {

/// The preferences as plain values.
pub struct PrefsView {
    pub user_input: Seq<char>,
    pub auto_scroll: bool,
    pub refocus_input: bool,
}

/// A stored record as plain values: a field is `None` where the record
/// lacks it.
pub struct RecordView {
    pub user_input: Option<Seq<char>>,
    pub auto_scroll: Option<bool>,
    pub refocus_input: Option<bool>,
}

/// The preferences of a first start: no pending input, auto-scroll on, and
/// the input line to be focused.
pub open spec fn default_prefs() -> PrefsView {
    PrefsView { user_input: Seq::empty(), auto_scroll: true, refocus_input: true }
}

/// The record that saving `p` stores: every field present.
pub open spec fn save_of(p: PrefsView) -> RecordView {
    RecordView {
        user_input: Some(p.user_input),
        auto_scroll: Some(p.auto_scroll),
        refocus_input: Some(p.refocus_input),
    }
}

/// The preferences read from `stored`: each field that the record holds, the
/// default for each that it lacks, and all defaults where there is no record.
pub open spec fn load_of(stored: Option<RecordView>) -> PrefsView {
    match stored {
        None => default_prefs(),
        Some(r) => PrefsView {
            user_input: match r.user_input {
                Some(u) => u,
                None => default_prefs().user_input,
            },
            auto_scroll: match r.auto_scroll {
                Some(a) => a,
                None => default_prefs().auto_scroll,
            },
            refocus_input: match r.refocus_input {
                Some(f) => f,
                None => default_prefs().refocus_input,
            },
        },
    }
}

/// Loading what was saved gives back the same preferences.
pub proof fn lemma_load_save(p: PrefsView)
    ensures
        load_of(Some(save_of(p))) == p,
{
}

/// A record without the auto-scroll field loads with auto-scroll on, and
/// with every field that it holds as it holds it.
pub proof fn lemma_load_missing_auto_scroll(r: RecordView)
    requires
        r.auto_scroll is None,
    ensures
        load_of(Some(r)).auto_scroll,
        r.user_input matches Some(u) ==> load_of(Some(r)).user_input == u,
        r.refocus_input matches Some(f) ==> load_of(Some(r)).refocus_input == f,
{
}

/// The preferences kept across restarts.
pub struct Preferences {
    /// The text typed but not yet submitted.
    pub user_input: String,
    /// Whether the scrollback keeps its last row in view.
    pub auto_scroll: bool,
    /// Whether the input line is to take the keyboard focus.
    pub refocus_input: bool,
}

impl View for Preferences {
    type V = PrefsView;

    open spec fn view(&self) -> PrefsView {
        PrefsView {
            user_input: self.user_input@,
            auto_scroll: self.auto_scroll,
            refocus_input: self.refocus_input,
        }
    }
}

/// A stored record of preferences, in which any field may be missing.
pub struct PreferencesRecord {
    pub user_input: Option<String>,
    pub auto_scroll: Option<bool>,
    pub refocus_input: Option<bool>,
}

impl View for PreferencesRecord {
    type V = RecordView;

    open spec fn view(&self) -> RecordView {
        RecordView {
            user_input: match self.user_input {
                Some(u) => Some(u@),
                None => None,
            },
            auto_scroll: self.auto_scroll,
            refocus_input: self.refocus_input,
        }
    }
}

impl Preferences {
    /// The preferences of a first start.
    pub fn new() -> (r: Preferences)
        ensures
            r@ == default_prefs(),
    {
        Preferences { user_input: String::new(), auto_scroll: true, refocus_input: true }
    }

    /// The record to store: every field present.
    pub fn save(&self) -> (r: PreferencesRecord)
        ensures
            r@ == save_of(self@),
    {
        PreferencesRecord {
            user_input: Some(self.user_input.clone()),
            auto_scroll: Some(self.auto_scroll),
            refocus_input: Some(self.refocus_input),
        }
    }

    /// The preferences read from a stored record, or the defaults where none
    /// was stored. Never fails: a missing field takes its default.
    pub fn load(stored: Option<PreferencesRecord>) -> (r: Preferences)
        ensures
            r@ == load_of(
                match stored {
                    Some(s) => Some(s@),
                    None => None,
                },
            ),
    {
        match stored {
            None => Preferences::new(),
            Some(record) => {
                let user_input = match record.user_input {
                    Some(u) => u,
                    None => String::new(),
                };
                let auto_scroll = match record.auto_scroll {
                    Some(a) => a,
                    None => true,
                };
                let refocus_input = match record.refocus_input {
                    Some(f) => f,
                    None => true,
                };
                Preferences { user_input, auto_scroll, refocus_input }
            },
        }
    }
}

impl Default for Preferences {
    fn default() -> (r: Preferences)
        ensures
            r@ == default_prefs(),
    {
        Preferences::new()
    }
}

} // verus!
