//! Fetch options of a profile and the merge of stored options with
//! caller-supplied overrides.

use vstd::prelude::*;

verus! {

/// How a remote subscription fetch is routed and refreshed. Every field is
/// optional; an absent field means "no preference recorded".
///
/// `with_proxy` routes the fetch through the system's configured upstream
/// proxy; `self_proxy` routes it through this tool's own proxy core (the
/// fallback path).
#[derive(Clone, Copy, Debug, PartialEq, Eq)]
pub struct ProfileOption {
    pub with_proxy: Option<bool>,
    pub self_proxy: Option<bool>,
    pub update_interval: Option<u64>,
    pub accept_invalid_certs: Option<bool>,
}

impl ProfileOption {
    /// The option set with every field absent.
    pub open spec fn spec_empty() -> ProfileOption {
        ProfileOption {
            with_proxy: None,
            self_proxy: None,
            update_interval: None,
            accept_invalid_certs: None,
        }
    }
}

impl Default for ProfileOption {
    fn default() -> (r: Self)
        ensures
            r == Self::spec_empty(),
    {
        ProfileOption {
            with_proxy: None,
            self_proxy: None,
            update_interval: None,
            accept_invalid_certs: None,
        }
    }
}

/// Field-wise combination of two present option sets: a field present in
/// `patch` wins, otherwise the stored field is kept.
pub open spec fn merge_fields(stored: ProfileOption, patch: ProfileOption) -> ProfileOption {
    ProfileOption {
        with_proxy: if patch.with_proxy is Some {
            patch.with_proxy
        } else {
            stored.with_proxy
        },
        self_proxy: if patch.self_proxy is Some {
            patch.self_proxy
        } else {
            stored.self_proxy
        },
        update_interval: if patch.update_interval is Some {
            patch.update_interval
        } else {
            stored.update_interval
        },
        accept_invalid_certs: if patch.accept_invalid_certs is Some {
            patch.accept_invalid_certs
        } else {
            stored.accept_invalid_certs
        },
    }
}

/// What `ProfileOption::merge` returns: absent only when both inputs are
/// absent, otherwise the field-wise merge with `patch` winning.
pub open spec fn spec_merge(
    stored: Option<ProfileOption>,
    patch: Option<ProfileOption>,
) -> Option<ProfileOption> {
    match (stored, patch) {
        (Option::None, Option::None) => Option::None,
        (Option::Some(s), Option::None) => Option::Some(s),
        (Option::None, Option::Some(p)) => Option::Some(p),
        (Option::Some(s), Option::Some(p)) => Option::Some(merge_fields(s, p)),
    }
}

impl ProfileOption {
    /// Combine a profile's stored fetch options with caller-supplied
    /// overrides into one effective option set.
    pub fn merge(stored: Option<ProfileOption>, patch: Option<ProfileOption>) -> (r: Option<
        ProfileOption,
    >)
        ensures
            r == spec_merge(stored, patch),
    {
        match (stored, patch) {
            (Option::None, Option::None) => Option::None,
            (Option::Some(s), Option::None) => Option::Some(s),
            (Option::None, Option::Some(p)) => Option::Some(p),
            (Option::Some(s), Option::Some(p)) => Option::Some(
                ProfileOption {
                    with_proxy: if p.with_proxy.is_some() {
                        p.with_proxy
                    } else {
                        s.with_proxy
                    },
                    self_proxy: if p.self_proxy.is_some() {
                        p.self_proxy
                    } else {
                        s.self_proxy
                    },
                    update_interval: if p.update_interval.is_some() {
                        p.update_interval
                    } else {
                        s.update_interval
                    },
                    accept_invalid_certs: if p.accept_invalid_certs.is_some() {
                        p.accept_invalid_certs
                    } else {
                        s.accept_invalid_certs
                    },
                },
            ),
        }
    }
}

/// Law: the merge is absent exactly when both inputs are absent, and every
/// field present in the override wins over the stored value.
pub proof fn lemma_merge_override_wins(
    stored: Option<ProfileOption>,
    patch: Option<ProfileOption>,
)
    ensures
        spec_merge(stored, patch) is None <==> (stored is None && patch is None),
        patch matches Some(p) ==> spec_merge(stored, patch) matches Some(m) && {
            &&& p.with_proxy is Some ==> m.with_proxy == p.with_proxy
            &&& p.self_proxy is Some ==> m.self_proxy == p.self_proxy
            &&& p.update_interval is Some ==> m.update_interval == p.update_interval
            &&& p.accept_invalid_certs is Some ==> m.accept_invalid_certs
                == p.accept_invalid_certs
        },
{
}

} // verus!
