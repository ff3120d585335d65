//! The feature-flag data model and its evaluation and rollout logic.
//!
//! A [`FeatureFlag`] carries a global switch, a per-user opt-out list and a
//! release strategy. [`FeatureFlag::evaluate`] decides whether the flag is
//! enabled for a given (possibly anonymous) user; [`FeatureFlag::hoist`] and
//! [`FeatureFlag::lower`] widen or narrow the flag's reach, either globally or
//! for a single user.

use vstd::prelude::*;

use crate::oid::{fresh_object_id_hex, is_object_id_hex};
use crate::text::{clone_strings, contains_str};

verus! {

/// Spec-level model of a [`ReleaseType`].
#[verifier::ext_equal]
pub enum ReleaseTypeView {
    Global,
    Limited(Seq<Seq<char>>),
    Percentage(nat, Seq<Seq<char>>),
}

/// Spec-level model of a [`FeatureFlag`].
#[verifier::ext_equal]
pub struct FeatureFlagView {
    pub oid: Option<Seq<char>>,
    pub name: Seq<char>,
    pub product_id: Seq<char>,
    pub enabled: bool,
    pub client_toggle: bool,
    pub disabled_for: Seq<Seq<char>>,
    pub release_type: ReleaseTypeView,
}

/// How a feature flag is rolled out to users.
#[derive(Debug, PartialEq)]
pub enum ReleaseType {
    /// The flag applies to every user alike.
    Global,
    /// Only the users on the allow-list may see the flag enabled.
    Limited(Vec<String>),
    /// A staged rollout: a target fraction of the user base, in hundredths of
    /// a percent, together with an allow-list. Evaluation gates on the
    /// allow-list alone; the fraction is carried as rollout metadata and is
    /// deliberately not consulted.
    Percentage(u32, Vec<String>),
}

impl View for ReleaseType {
    type V = ReleaseTypeView;

    open spec fn view(&self) -> ReleaseTypeView {
        match self {
            ReleaseType::Global => ReleaseTypeView::Global,
            ReleaseType::Limited(allow) => ReleaseTypeView::Limited(allow.deep_view()),
            ReleaseType::Percentage(fraction, allow) => ReleaseTypeView::Percentage(
                *fraction as nat,
                allow.deep_view(),
            ),
        }
    }
}

/// A named on/off switch scoped to a product, governed by a release strategy.
#[derive(Clone, Debug, PartialEq)]
pub struct FeatureFlag {
    /// Unique id of the flag, assigned by the store on creation; `None` while
    /// the flag has not been persisted.
    pub oid: Option<String>,
    /// Name of the flag, unique within a product.
    pub name: String,
    /// Unique id of the product the flag belongs to.
    pub product_id: String,
    /// Global switch; `false` trumps every other rule.
    pub enabled: bool,
    /// Whether clients may toggle the flag for themselves.
    pub client_toggle: bool,
    /// Users who have the flag disabled regardless of strategy.
    pub disabled_for: Vec<String>,
    /// How the flag is rolled out.
    pub release_type: ReleaseType,
}

impl View for FeatureFlag {
    type V = FeatureFlagView;

    open spec fn view(&self) -> FeatureFlagView {
        FeatureFlagView {
            oid: self.oid.deep_view(),
            name: self.name@,
            product_id: self.product_id@,
            enabled: self.enabled,
            client_toggle: self.client_toggle,
            disabled_for: self.disabled_for.deep_view(),
            release_type: self.release_type@,
        }
    }
}

/// `list` with every occurrence of `user` removed, order otherwise kept.
pub open spec fn without_user(list: Seq<Seq<char>>, user: Seq<char>) -> Seq<Seq<char>> {
    list.filter(|entry: Seq<char>| entry != user)
}

impl FeatureFlagView {
    /// What [`FeatureFlag::evaluate`] decides: the global switch trumps all,
    /// then the per-user opt-out, then the release strategy.
    pub open spec fn evaluate(self, user_id: Option<Seq<char>>) -> bool {
        if !self.enabled {
            false
        } else {
            match self.release_type {
                ReleaseTypeView::Global => match user_id {
                    Some(user) => !self.disabled_for.contains(user),
                    None => true,
                },
                ReleaseTypeView::Limited(allow) => match user_id {
                    Some(user) => !self.disabled_for.contains(user) && allow.contains(user),
                    None => false,
                },
                ReleaseTypeView::Percentage(_, allow) => match user_id {
                    Some(user) => !self.disabled_for.contains(user) && allow.contains(user),
                    None => false,
                },
            }
        }
    }

    /// What [`FeatureFlag::hoist`] does: enable globally, or re-enable for one
    /// user by taking them off the opt-out list.
    pub open spec fn hoist(self, user_id: Option<Seq<char>>) -> FeatureFlagView {
        match user_id {
            Some(user) => FeatureFlagView {
                disabled_for: without_user(self.disabled_for, user),
                ..self
            },
            None => FeatureFlagView { enabled: true, ..self },
        }
    }

    /// What [`FeatureFlag::lower`] does: disable globally, or disable for one
    /// user by appending them to the opt-out list.
    pub open spec fn lower(self, user_id: Option<Seq<char>>) -> FeatureFlagView {
        match user_id {
            Some(user) => FeatureFlagView {
                disabled_for: self.disabled_for.push(user),
                ..self
            },
            None => FeatureFlagView { enabled: false, ..self },
        }
    }
}

impl FeatureFlag {
    /// Enables the flag: globally when no user is given, otherwise for that
    /// user alone, by taking them off the opt-out list. A user not currently
    /// opted out is a no-op, not an error.
    pub fn hoist(&mut self, user_id: Option<String>)
        ensures
            final(self)@ == old(self)@.hoist(user_id.deep_view()),
    {
        match user_id {
            Some(user) => {
                let mut kept: Vec<String> = Vec::new();
                let mut i: usize = 0;
                while i < self.disabled_for.len()
                    invariant
                        i <= self.disabled_for.len(),
                        kept.deep_view() == without_user(
                            self.disabled_for.deep_view().subrange(0, i as int),
                            user@,
                        ),
                    decreases self.disabled_for.len() - i,
                {
                    let ghost all = self.disabled_for.deep_view();
                    let ghost prev = kept.deep_view();
                    proof {
                        assert(all.subrange(0, i + 1) =~= all.subrange(0, i as int).push(
                            all[i as int],
                        ));
                        lemma_without_user_push(all.subrange(0, i as int), user@, all[i as int]);
                    }
                    if !(self.disabled_for[i] == user) {
                        kept.push(self.disabled_for[i].clone());
                        proof {
                            assert(kept.deep_view() =~= prev.push(all[i as int]));
                        }
                    }
                    i = i + 1;
                }
                proof {
                    let all = self.disabled_for.deep_view();
                    assert(all.subrange(0, all.len() as int) =~= all);
                }
                self.disabled_for = kept;
            },
            None => {
                self.enabled = true;
            },
        }
    }

    /// Disables the flag: globally when no user is given, otherwise for that
    /// user alone, by appending them to the opt-out list.
    pub fn lower(&mut self, user_id: Option<String>)
        ensures
            final(self)@ == old(self)@.lower(user_id.deep_view()),
    {
        match user_id {
            Some(user) => {
                let ghost added = user@;
                self.disabled_for.push(user);
                proof {
                    assert(self.disabled_for.deep_view() =~= old(
                        self,
                    ).disabled_for.deep_view().push(added));
                }
            },
            None => {
                self.enabled = false;
            },
        }
    }

    /// Decides whether the flag is enabled for the given user, or for no user
    /// in particular when `user_id` is `None`. Total and pure: absent data
    /// yields `false`, never an error.
    pub fn evaluate(&self, user_id: Option<&str>) -> (enabled: bool)
        ensures
            enabled == self@.evaluate(user_id.deep_view()),
    {
        if !self.enabled {
            return false;
        }

        match user_id {
            Some(user) => {
                if contains_str(&self.disabled_for, user) {
                    false
                } else {
                    match &self.release_type {
                        ReleaseType::Global => true,
                        ReleaseType::Limited(allow) => contains_str(allow, user),
                        ReleaseType::Percentage(_, allow) => contains_str(allow, user),
                    }
                }
            },
            None => match &self.release_type {
                ReleaseType::Global => true,
                ReleaseType::Limited(_) => false,
                ReleaseType::Percentage(_, _) => false,
            },
        }
    }
}

impl Clone for ReleaseType {
    /// Cloning keeps the strategy and its payload exactly.
    fn clone(&self) -> (other: Self)
        ensures
            other@ == self@,
    {
        match self {
            ReleaseType::Global => ReleaseType::Global,
            ReleaseType::Limited(allow) => ReleaseType::Limited(clone_strings(allow)),
            ReleaseType::Percentage(fraction, allow) => ReleaseType::Percentage(
                *fraction,
                clone_strings(allow),
            ),
        }
    }
}

impl FeatureFlagView {
    /// The flag every builder starts from: unsaved, named after nothing in
    /// particular, switched off, under the global strategy.
    pub open spec fn default_flag() -> FeatureFlagView {
        FeatureFlagView {
            oid: None,
            name: "default_flag"@,
            product_id: "default_product"@,
            enabled: false,
            client_toggle: false,
            disabled_for: Seq::empty(),
            release_type: ReleaseTypeView::Global,
        }
    }
}

impl Default for FeatureFlag {
    /// The placeholder flag: unsaved, switched off, global strategy.
    fn default() -> (flag: FeatureFlag)
        ensures
            flag@ == FeatureFlagView::default_flag(),
    {
        let flag = FeatureFlag {
            oid: None,
            name: "default_flag".to_owned(),
            product_id: "default_product".to_owned(),
            enabled: false,
            client_toggle: false,
            disabled_for: Vec::new(),
            release_type: ReleaseType::Global,
        };
        proof {
            assert(flag@ =~= FeatureFlagView::default_flag());
        }
        flag
    }
}

/// A rendering of a [`FeatureFlag`] that is safe to hand out: the opt-out
/// list stays private and the id is always present, with a placeholder for a
/// flag that was never persisted.
#[derive(Clone, Debug, PartialEq)]
pub struct SpecSafeFeatureFlag {
    /// Unique id of the feature flag.
    pub oid: String,
    /// Name of the feature flag.
    pub name: String,
    /// Unique id of the product the feature flag belongs to.
    pub product_id: String,
    /// Global enabled status of the flag.
    pub enabled: bool,
    /// Whether clients may toggle the flag for themselves.
    pub client_toggle: bool,
    /// How the flag is rolled out.
    pub release_type: ReleaseType,
}

impl FeatureFlag {
    /// Returns a [`FeatureFlagBuilder`] to eventually construct a
    /// [`FeatureFlag`].
    pub fn builder() -> (b: FeatureFlagBuilder)
        ensures
            b@ == FeatureFlagView::default_flag(),
    {
        FeatureFlagBuilder::new()
    }

    /// Renders the flag for handing out. A persisted flag keeps its id; one
    /// that was never persisted gets a freshly drawn placeholder id.
    pub fn get_spec_safe_feature_flag(&self) -> (safe: SpecSafeFeatureFlag)
        ensures
            match self@.oid {
                Some(id) => safe.oid@ == id,
                None => is_object_id_hex(safe.oid@),
            },
            safe.name@ == self@.name,
            safe.product_id@ == self@.product_id,
            safe.enabled == self@.enabled,
            safe.client_toggle == self@.client_toggle,
            safe.release_type@ == self@.release_type,
    {
        SpecSafeFeatureFlag {
            oid: match &self.oid {
                Some(id) => id.clone(),
                None => fresh_object_id_hex(),
            },
            name: self.name.clone(),
            product_id: self.product_id.clone(),
            enabled: self.enabled,
            client_toggle: self.client_toggle,
            release_type: self.release_type.clone(),
        }
    }
}

/// Accumulates the fields of a [`FeatureFlag`] before it is built.
#[derive(Debug)]
pub struct FeatureFlagBuilder {
    /// Id assigned by the store, if the flag was already persisted.
    pub oid: Option<String>,
    /// Flag name.
    pub name: String,
    /// Unique id of the product the feature flag belongs to.
    pub product_id: String,
    /// Global enabled status of the flag.
    pub enabled: bool,
    /// Whether clients may toggle the flag for themselves.
    pub client_toggle: bool,
    /// Users who have the flag disabled.
    pub disabled_for: Vec<String>,
    /// How the flag is rolled out.
    pub release_type: ReleaseType,
}

impl View for FeatureFlagBuilder {
    type V = FeatureFlagView;

    open spec fn view(&self) -> FeatureFlagView {
        FeatureFlagView {
            oid: self.oid.deep_view(),
            name: self.name@,
            product_id: self.product_id@,
            enabled: self.enabled,
            client_toggle: self.client_toggle,
            disabled_for: self.disabled_for.deep_view(),
            release_type: self.release_type@,
        }
    }
}

impl Default for FeatureFlagBuilder {
    /// Starts from the same fields as the default flag.
    fn default() -> (b: FeatureFlagBuilder)
        ensures
            b@ == FeatureFlagView::default_flag(),
    {
        FeatureFlagBuilder::new()
    }
}

impl FeatureFlagBuilder {
    /// Starts from the same fields as the default flag.
    fn new() -> (b: FeatureFlagBuilder)
        ensures
            b@ == FeatureFlagView::default_flag(),
    {
        let flag = FeatureFlag::default();
        let b = FeatureFlagBuilder {
            oid: flag.oid,
            name: flag.name,
            product_id: flag.product_id,
            enabled: flag.enabled,
            client_toggle: flag.client_toggle,
            disabled_for: flag.disabled_for,
            release_type: flag.release_type,
        };
        proof {
            assert(b@ =~= FeatureFlagView::default_flag());
        }
        b
    }

    /// Sets the id the store assigned to the flag.
    pub fn with_oid(self, oid: String) -> (b: FeatureFlagBuilder)
        ensures
            b@ == (FeatureFlagView { oid: Some(oid@), ..self@ }),
    {
        let mut b = self;
        b.oid = Some(oid);
        b
    }

    /// Sets the flag's name.
    pub fn with_name(self, name: &str) -> (b: FeatureFlagBuilder)
        ensures
            b@ == (FeatureFlagView { name: name@, ..self@ }),
    {
        let mut b = self;
        b.name = name.to_owned();
        b
    }

    /// Sets the id of the product the flag belongs to.
    pub fn with_product_id(self, product_id: &str) -> (b: FeatureFlagBuilder)
        ensures
            b@ == (FeatureFlagView { product_id: product_id@, ..self@ }),
    {
        let mut b = self;
        b.product_id = product_id.to_owned();
        b
    }

    /// Sets the global switch.
    pub fn with_enabled(self, enabled: bool) -> (b: FeatureFlagBuilder)
        ensures
            b@ == (FeatureFlagView { enabled, ..self@ }),
    {
        let mut b = self;
        b.enabled = enabled;
        b
    }

    /// Sets whether clients may toggle the flag for themselves.
    pub fn with_client_toggle(self, client_toggle: bool) -> (b: FeatureFlagBuilder)
        ensures
            b@ == (FeatureFlagView { client_toggle, ..self@ }),
    {
        let mut b = self;
        b.client_toggle = client_toggle;
        b
    }

    /// Sets the per-user opt-out list.
    pub fn with_disabled_for(self, disabled_for: Vec<String>) -> (b: FeatureFlagBuilder)
        ensures
            b@ == (FeatureFlagView { disabled_for: disabled_for.deep_view(), ..self@ }),
    {
        let mut b = self;
        b.disabled_for = disabled_for;
        b
    }

    /// Sets the release strategy.
    pub fn with_release_type(self, release_type: ReleaseType) -> (b: FeatureFlagBuilder)
        ensures
            b@ == (FeatureFlagView { release_type: release_type@, ..self@ }),
    {
        let mut b = self;
        b.release_type = release_type;
        b
    }

    /// Builds the flag, consuming the builder.
    pub fn build(self) -> (flag: FeatureFlag)
        ensures
            flag@ == self@,
    {
        FeatureFlag {
            oid: self.oid,
            name: self.name,
            product_id: self.product_id,
            enabled: self.enabled,
            client_toggle: self.client_toggle,
            disabled_for: self.disabled_for,
            release_type: self.release_type,
        }
    }
}

/// Removing a user distributes over appending an entry: the entry survives
/// exactly when it is not that user.
proof fn lemma_without_user_push(list: Seq<Seq<char>>, user: Seq<char>, entry: Seq<char>)
    ensures
        without_user(list.push(entry), user) == if entry == user {
            without_user(list, user)
        } else {
            without_user(list, user).push(entry)
        },
{
    reveal(Seq::filter);
    assert(list.push(entry).drop_last() =~= list);
    assert(list.push(entry).last() == entry);
}

/// Removing a user who is not on the list leaves the list as it is.
proof fn lemma_without_user_unchanged(list: Seq<Seq<char>>, user: Seq<char>)
    requires
        !list.contains(user),
    ensures
        without_user(list, user) == list,
    decreases list.len(),
{
    reveal(Seq::filter);
    if list.len() == 0 {
        assert(without_user(list, user) =~= list);
    } else {
        assert(list.last() != user) by {
            assert(list[list.len() - 1] == list.last());
        }
        assert(!list.drop_last().contains(user)) by {
            assert(forall|j: int|
                0 <= j < list.drop_last().len() ==> list.drop_last()[j] == #[trigger] list[j]);
        }
        lemma_without_user_unchanged(list.drop_last(), user);
        assert(without_user(list, user) =~= list);
    }
}

/// The user removed is absent from the result.
proof fn lemma_without_user_absent(list: Seq<Seq<char>>, user: Seq<char>)
    ensures
        !without_user(list, user).contains(user),
    decreases list.len(),
{
    reveal(Seq::filter);
    if list.len() > 0 {
        lemma_without_user_absent(list.drop_last(), user);
        let shorter = without_user(list.drop_last(), user);
        if list.last() != user {
            assert forall|j: int| 0 <= j < shorter.push(list.last()).len() implies shorter.push(
                list.last(),
            )[j] != user by {
                if j < shorter.len() {
                    assert(!shorter.contains(user));
                }
            }
        }
    }
}

/// A flag whose global switch is off evaluates to `false` for every user and
/// for the anonymous check alike, regardless of strategy.
pub proof fn evaluate_globally_disabled(flag: FeatureFlagView, user_id: Option<Seq<char>>)
    requires
        !flag.enabled,
    ensures
        !flag.evaluate(user_id),
{
}

/// An enabled flag under the global strategy evaluates to `true` for the
/// anonymous check.
pub proof fn evaluate_global_anonymous(flag: FeatureFlagView)
    requires
        flag.enabled,
        flag.release_type is Global,
    ensures
        flag.evaluate(None),
{
}

/// A user-scoped strategy cannot be evaluated anonymously: under a limited or
/// percentage release, the anonymous check is `false` whatever the allow-list
/// and whatever the global switch.
pub proof fn evaluate_scoped_anonymous(flag: FeatureFlagView)
    requires
        !(flag.release_type is Global),
    ensures
        !flag.evaluate(None),
{
}

/// An explicit per-user opt-out wins: a user on the opt-out list evaluates to
/// `false` even when enabled and on the allow-list.
pub proof fn evaluate_opted_out(flag: FeatureFlagView, user: Seq<char>)
    requires
        flag.disabled_for.contains(user),
    ensures
        !flag.evaluate(Some(user)),
{
}

/// Rollout is strategy-preserving: neither hoisting nor lowering ever changes
/// the release strategy or the flag's identity, only the global switch or the
/// opt-out list.
pub proof fn rollout_preserves_strategy(flag: FeatureFlagView, user_id: Option<Seq<char>>)
    ensures
        flag.hoist(user_id).release_type == flag.release_type,
        flag.lower(user_id).release_type == flag.release_type,
        flag.hoist(user_id).oid == flag.oid,
        flag.lower(user_id).oid == flag.oid,
        flag.hoist(user_id).name == flag.name,
        flag.lower(user_id).name == flag.name,
        flag.hoist(user_id).product_id == flag.product_id,
        flag.lower(user_id).product_id == flag.product_id,
        flag.hoist(user_id).client_toggle == flag.client_toggle,
        flag.lower(user_id).client_toggle == flag.client_toggle,
{
}

/// Each rollout scope stays in its lane: a user-scoped change leaves the
/// global switch alone, and a global change leaves the opt-out list alone.
pub proof fn rollout_stays_in_scope(flag: FeatureFlagView, user: Seq<char>)
    ensures
        flag.hoist(Some(user)).enabled == flag.enabled,
        flag.lower(Some(user)).enabled == flag.enabled,
        flag.hoist(None).disabled_for == flag.disabled_for,
        flag.lower(None).disabled_for == flag.disabled_for,
{
}

/// Re-enabling a flag for a user is idempotent: the first hoist leaves the
/// opt-out list without the user, and a second hoist for the same user
/// changes nothing.
pub proof fn hoist_user_idempotent(flag: FeatureFlagView, user: Seq<char>)
    ensures
        !flag.hoist(Some(user)).disabled_for.contains(user),
        flag.hoist(Some(user)).hoist(Some(user)) == flag.hoist(Some(user)),
{
    lemma_without_user_absent(flag.disabled_for, user);
    lemma_without_user_unchanged(flag.hoist(Some(user)).disabled_for, user);
    assert(flag.hoist(Some(user)).hoist(Some(user)) =~= flag.hoist(Some(user)));
}

/// Lowering a flag for a user and then hoisting it for the same user leaves
/// that user absent from the opt-out list; when the user was absent to begin
/// with, the flag is restored exactly.
pub proof fn lower_then_hoist_restores(flag: FeatureFlagView, user: Seq<char>)
    ensures
        !flag.lower(Some(user)).hoist(Some(user)).disabled_for.contains(user),
        !flag.disabled_for.contains(user) ==> flag.lower(Some(user)).hoist(Some(user)) == flag,
{
    lemma_without_user_push(flag.disabled_for, user, user);
    lemma_without_user_absent(flag.disabled_for, user);
    if !flag.disabled_for.contains(user) {
        lemma_without_user_unchanged(flag.disabled_for, user);
        assert(flag.lower(Some(user)).hoist(Some(user)) =~= flag);
    }
}

} // verus!
