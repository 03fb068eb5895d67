//! Redfish payload types that the library builds or inspects itself: identifiers,
//! collections, reset and boot values, and the bodies of create and update requests
//! together with the JSON they are sent as.
use vstd::prelude::*;

use crate::json::{members_view, JsonValue, JsonView};
use crate::pairs::{pairs_as_map, pairs_to_map};
use crate::text::{chars_of, lower_chars, lower_spec, trim_chars, trim_spec};
use crate::url::{opt_view, pair_views, views_of};

verus! {

// ---------------------------------------------------------------------------------------
// Identifiers and collections
// ---------------------------------------------------------------------------------------

/// Minimal OData identifier used across Redfish resources (`@odata.id`).
#[derive(Debug)]
pub struct OdataId {
    pub odata_id: String,
}

impl OdataId {
    /// The identifier's URI.
    pub fn as_str(&self) -> (r: &str)
        ensures
            r@ == self.odata_id@,
    {
        self.odata_id.as_str()
    }

    /// An identifier with the same URI.
    pub fn duplicate(&self) -> (r: OdataId)
        ensures
            r.odata_id@ == self.odata_id@,
    {
        OdataId { odata_id: self.odata_id.clone() }
    }
}

/// A Redfish collection: its `Members`, the optional count, and the pagination links.
#[derive(Debug)]
pub struct Collection<T> {
    pub odata_id: Option<String>,
    pub name: Option<String>,
    pub members: Vec<T>,
    pub members_count: Option<u64>,
    /// `Members@odata.nextLink`.
    pub members_next_link: Option<String>,
    /// `@odata.nextLink`.
    pub odata_next_link: Option<String>,
}

/// The link to the next page: `Members@odata.nextLink`, else `@odata.nextLink`.
pub open spec fn next_link_spec(
    members_next_link: Option<Seq<char>>,
    odata_next_link: Option<Seq<char>>,
) -> Option<Seq<char>> {
    match members_next_link {
        Some(l) => Some(l),
        None => odata_next_link,
    }
}

impl<T> Collection<T> {
    /// The next-page URI, if present (see [`next_link_spec`]).
    pub fn next_link(&self) -> (r: Option<&str>)
        ensures
            crate::url::opt_str_view(r) == next_link_spec(
                opt_view(self.members_next_link),
                opt_view(self.odata_next_link),
            ),
    {
        match &self.members_next_link {
            Some(l) => Some(l.as_str()),
            None => match &self.odata_next_link {
                Some(l) => Some(l.as_str()),
                None => None,
            },
        }
    }
}

// ---------------------------------------------------------------------------------------
// Values of Redfish enumerations
// ---------------------------------------------------------------------------------------

/// Reset action type used by several Redfish resources.
#[derive(Debug, Clone, Copy, PartialEq, Eq, Structural)]
pub enum ResetType {
    On,
    ForceOff,
    GracefulShutdown,
    GracefulRestart,
    ForceRestart,
    ForceOn,
    PushPowerButton,
    PowerCycle,
    /// Non-maskable interrupt.
    Nmi,
}

/// The name a reset type is sent as.
pub open spec fn reset_type_name(t: ResetType) -> Seq<char> {
    match t {
        ResetType::On => "On"@,
        ResetType::ForceOff => "ForceOff"@,
        ResetType::GracefulShutdown => "GracefulShutdown"@,
        ResetType::GracefulRestart => "GracefulRestart"@,
        ResetType::ForceRestart => "ForceRestart"@,
        ResetType::ForceOn => "ForceOn"@,
        ResetType::PushPowerButton => "PushPowerButton"@,
        ResetType::PowerCycle => "PowerCycle"@,
        ResetType::Nmi => "Nmi"@,
    }
}

/// Each reset type is sent under its own Redfish `ResetType` name, the variant's name
/// in PascalCase, and no two reset types share a name.
pub proof fn lemma_reset_type_names(a: ResetType, b: ResetType)
    ensures
        reset_type_name(a) == reset_type_name(b) ==> a == b,
        reset_type_name(ResetType::On) == "On"@,
        reset_type_name(ResetType::ForceOff) == "ForceOff"@,
        reset_type_name(ResetType::GracefulShutdown) == "GracefulShutdown"@,
        reset_type_name(ResetType::GracefulRestart) == "GracefulRestart"@,
        reset_type_name(ResetType::ForceRestart) == "ForceRestart"@,
        reset_type_name(ResetType::ForceOn) == "ForceOn"@,
        reset_type_name(ResetType::PushPowerButton) == "PushPowerButton"@,
        reset_type_name(ResetType::PowerCycle) == "PowerCycle"@,
        reset_type_name(ResetType::Nmi) == "Nmi"@,
{
    reveal_strlit("On");
    reveal_strlit("ForceOff");
    reveal_strlit("GracefulShutdown");
    reveal_strlit("GracefulRestart");
    reveal_strlit("ForceRestart");
    reveal_strlit("ForceOn");
    reveal_strlit("PushPowerButton");
    reveal_strlit("PowerCycle");
    reveal_strlit("Nmi");
    if reset_type_name(a) == reset_type_name(b) {
        assert(reset_type_name(a).len() == reset_type_name(b).len());
        assert(reset_type_name(a)[0] == reset_type_name(b)[0]);
        assert(reset_type_name(a)[5] == reset_type_name(b)[5]);
    }
}

impl ResetType {
    /// The name this reset type is sent as.
    pub fn as_str(&self) -> (r: &'static str)
        ensures
            r@ == reset_type_name(*self),
    {
        match self {
            ResetType::On => "On",
            ResetType::ForceOff => "ForceOff",
            ResetType::GracefulShutdown => "GracefulShutdown",
            ResetType::GracefulRestart => "GracefulRestart",
            ResetType::ForceRestart => "ForceRestart",
            ResetType::ForceOn => "ForceOn",
            ResetType::PushPowerButton => "PushPowerButton",
            ResetType::PowerCycle => "PowerCycle",
            ResetType::Nmi => "Nmi",
        }
    }
}

/// `BootSourceOverrideEnabled`, kept as text so that unknown values survive.
#[derive(Debug)]
pub struct BootSourceOverrideEnabled(String);

impl View for BootSourceOverrideEnabled {
    type V = Seq<char>;

    closed spec fn view(&self) -> Seq<char> {
        self.0@
    }
}

impl BootSourceOverrideEnabled {
    /// A value of this text.
    pub fn new(value: &str) -> (r: BootSourceOverrideEnabled)
        ensures
            r@ == value@,
    {
        BootSourceOverrideEnabled(value.to_owned())
    }

    /// `Disabled`.
    pub fn disabled() -> (r: BootSourceOverrideEnabled)
        ensures
            r@ == "Disabled"@,
    {
        Self::new("Disabled")
    }

    /// `Once`.
    pub fn once() -> (r: BootSourceOverrideEnabled)
        ensures
            r@ == "Once"@,
    {
        Self::new("Once")
    }

    /// `Continuous`.
    pub fn continuous() -> (r: BootSourceOverrideEnabled)
        ensures
            r@ == "Continuous"@,
    {
        Self::new("Continuous")
    }

    /// The text of the value.
    pub fn as_str(&self) -> (r: &str)
        ensures
            r@ == self@,
    {
        self.0.as_str()
    }
}

/// `BootSourceOverrideTarget`, kept as text so that unknown values survive.
#[derive(Debug)]
pub struct BootSourceOverrideTarget(String);

impl View for BootSourceOverrideTarget {
    type V = Seq<char>;

    closed spec fn view(&self) -> Seq<char> {
        self.0@
    }
}

impl BootSourceOverrideTarget {
    /// A value of this text.
    pub fn new(value: &str) -> (r: BootSourceOverrideTarget)
        ensures
            r@ == value@,
    {
        BootSourceOverrideTarget(value.to_owned())
    }

    /// `None`.
    pub fn none() -> (r: BootSourceOverrideTarget)
        ensures
            r@ == "None"@,
    {
        Self::new("None")
    }

    /// `Pxe`.
    pub fn pxe() -> (r: BootSourceOverrideTarget)
        ensures
            r@ == "Pxe"@,
    {
        Self::new("Pxe")
    }

    /// `Hdd`.
    pub fn hdd() -> (r: BootSourceOverrideTarget)
        ensures
            r@ == "Hdd"@,
    {
        Self::new("Hdd")
    }

    /// `Cd`.
    pub fn cd() -> (r: BootSourceOverrideTarget)
        ensures
            r@ == "Cd"@,
    {
        Self::new("Cd")
    }

    /// `BiosSetup`.
    pub fn bios_setup() -> (r: BootSourceOverrideTarget)
        ensures
            r@ == "BiosSetup"@,
    {
        Self::new("BiosSetup")
    }

    /// `UefiShell`.
    pub fn uefi_shell() -> (r: BootSourceOverrideTarget)
        ensures
            r@ == "UefiShell"@,
    {
        Self::new("UefiShell")
    }

    /// The text of the value.
    pub fn as_str(&self) -> (r: &str)
        ensures
            r@ == self@,
    {
        self.0.as_str()
    }
}

/// Whether a `TaskState` means that the task is finished.
pub open spec fn task_state_done(state: Option<Seq<char>>) -> bool {
    match state {
        Some(s) => s == "Completed"@ || s == "Exception"@ || s == "Killed"@ || s == "Cancelled"@,
        None => false,
    }
}

/// The terminal values of Redfish's `TaskState` end a wait, and only they: a task is
/// finished exactly when its state is `Completed`, `Exception`, `Killed` or `Cancelled`,
/// and a task without a state is not.
pub proof fn lemma_terminal_task_states(s: Seq<char>)
    ensures
        task_state_done(Some(s)) <==> (s == "Completed"@ || s == "Exception"@ || s == "Killed"@
            || s == "Cancelled"@),
        !task_state_done(None),
{
}

/// Whether a task in this `TaskState` is finished (`Completed`, `Exception`, `Killed`
/// or `Cancelled`).
pub fn task_is_done(state: Option<&str>) -> (r: bool)
    ensures
        r == task_state_done(crate::url::opt_str_view(state)),
{
    match state {
        Some(s) => {
            let t = String::from_str(s);
            t == String::from_str("Completed") || t == String::from_str("Exception") || t
                == String::from_str("Killed") || t == String::from_str("Cancelled")
        },
        None => false,
    }
}

// ---------------------------------------------------------------------------------------
// Building JSON bodies
// ---------------------------------------------------------------------------------------

/// A member that is present only where it has a value.
pub open spec fn opt_member(key: Seq<char>, v: Option<JsonView>) -> Seq<(Seq<char>, JsonView)> {
    match v {
        Some(x) => seq![(key, x)],
        None => Seq::empty(),
    }
}

/// An optional text as an optional JSON string.
pub open spec fn opt_text_json(o: Option<Seq<char>>) -> Option<JsonView> {
    match o {
        Some(t) => Some(JsonView::String(t)),
        None => None,
    }
}

/// An optional flag as an optional JSON boolean.
pub open spec fn opt_bool_json(o: Option<bool>) -> Option<JsonView> {
    match o {
        Some(b) => Some(JsonView::Bool(b)),
        None => None,
    }
}

/// A list of texts as a JSON array of strings.
pub open spec fn text_array(v: Seq<Seq<char>>) -> JsonView {
    JsonView::Array(Seq::new(v.len(), |i: int| JsonView::String(v[i])))
}

/// A list of texts as an optional JSON array, absent where the list is empty.
pub open spec fn nonempty_array(v: Seq<Seq<char>>) -> Option<JsonView> {
    if v.len() == 0 {
        None
    } else {
        Some(text_array(v))
    }
}

/// Name/value pairs as a JSON object of strings, in the order given.
pub open spec fn pairs_object(p: Seq<(Seq<char>, Seq<char>)>) -> JsonView {
    JsonView::Object(Seq::new(p.len(), |i: int| (p[i].0, JsonView::String(p[i].1))))
}

/// An optional list of texts as an optional JSON array.
pub open spec fn opt_array(o: Option<Seq<Seq<char>>>) -> Option<JsonView> {
    match o {
        Some(v) => Some(text_array(v)),
        None => None,
    }
}

/// Optional pairs as an optional JSON object.
pub open spec fn opt_pairs(o: Option<Seq<(Seq<char>, Seq<char>)>>) -> Option<JsonView> {
    match o {
        Some(p) => Some(pairs_object(p)),
        None => None,
    }
}

/// The views of an optional list of texts.
pub open spec fn opt_views(o: Option<Vec<String>>) -> Option<Seq<Seq<char>>> {
    match o {
        Some(v) => Some(views_of(v@)),
        None => None,
    }
}

/// The views of optional pairs.
pub open spec fn opt_pair_views(o: Option<Vec<(String, String)>>) -> Option<
    Seq<(Seq<char>, Seq<char>)>,
> {
    match o {
        Some(v) => Some(pair_views(v@)),
        None => None,
    }
}

/// Appends a member to an object under construction.
fn push_member(members: &mut Vec<(String, JsonValue)>, key: &str, value: JsonValue)
    ensures
        members_view(final(members)@) == members_view(old(members)@).push((key@, value@)),
{
    let ghost before = members@;
    members.push((key.to_owned(), value));
    assert(members_view(members@) =~= members_view(before).push((key@, value@)));
}

/// Appends a member where it has a value.
fn push_opt_member(members: &mut Vec<(String, JsonValue)>, key: &str, value: Option<JsonValue>)
    ensures
        members_view(final(members)@) == members_view(old(members)@) + opt_member(
            key@,
            match value {
                Some(v) => Some(v@),
                None => None,
            },
        ),
{
    match value {
        Some(v) => {
            let ghost vv = v@;
            push_member(members, key, v);
            assert(members_view(old(members)@).push((key@, vv)) =~= members_view(old(members)@)
                + seq![(key@, vv)]);
        },
        None => {
            assert(members_view(members@) =~= members_view(members@) + Seq::<
                (Seq<char>, JsonView),
            >::empty());
        },
    }
}

/// An optional text as an optional JSON string.
fn text_json(o: &Option<String>) -> (r: Option<JsonValue>)
    ensures
        match r {
            Some(v) => opt_text_json(opt_view(*o)) == Some(v@),
            None => opt_text_json(opt_view(*o)) is None,
        },
{
    match o {
        Some(t) => Some(JsonValue::String(t.clone())),
        None => None,
    }
}

/// An optional flag as an optional JSON boolean.
fn bool_json(o: Option<bool>) -> (r: Option<JsonValue>)
    ensures
        match r {
            Some(v) => opt_bool_json(o) == Some(v@),
            None => opt_bool_json(o) is None,
        },
{
    match o {
        Some(b) => Some(JsonValue::Bool(b)),
        None => None,
    }
}

/// A list of texts as a JSON array of strings.
pub fn string_array(v: &Vec<String>) -> (r: JsonValue)
    ensures
        r@ == text_array(views_of(v@)),
{
    let mut items: Vec<JsonValue> = Vec::new();
    let mut i: usize = 0;
    while i < v.len()
        invariant
            i <= v@.len(),
            items@.len() == i,
            forall|k: int| 0 <= k < i ==> (#[trigger] items@[k])@ == JsonView::String(v@[k]@),
        decreases v.len() - i,
    {
        items.push(JsonValue::String(v[i].clone()));
        i = i + 1;
    }
    proof {
        crate::json::lemma_array_view(items);
        assert(items@.map_values(|x: JsonValue| x@) =~= Seq::new(
            views_of(v@).len(),
            |k: int| JsonView::String(views_of(v@)[k]),
        ));
    }
    JsonValue::Array(items)
}

/// Name/value pairs as a JSON object of strings.
pub fn pairs_json(p: &Vec<(String, String)>) -> (r: JsonValue)
    ensures
        r@ == pairs_object(pair_views(p@)),
{
    let mut members: Vec<(String, JsonValue)> = Vec::new();
    let mut i: usize = 0;
    while i < p.len()
        invariant
            i <= p@.len(),
            members@.len() == i,
            forall|k: int|
                0 <= k < i ==> (#[trigger] members@[k]).0@ == p@[k].0@ && members@[k].1@
                    == JsonView::String(p@[k].1@),
        decreases p.len() - i,
    {
        members.push((p[i].0.clone(), JsonValue::String(p[i].1.clone())));
        i = i + 1;
    }
    proof {
        crate::json::lemma_object_view(members);
        assert(members_view(members@) =~= Seq::new(
            pair_views(p@).len(),
            |k: int| (pair_views(p@)[k].0, JsonView::String(pair_views(p@)[k].1)),
        ));
    }
    JsonValue::Object(members)
}

/// A list of texts as an optional JSON array, absent where empty.
fn nonempty_array_json(v: &Vec<String>) -> (r: Option<JsonValue>)
    ensures
        match r {
            Some(x) => nonempty_array(views_of(v@)) == Some(x@),
            None => nonempty_array(views_of(v@)) is None,
        },
{
    if v.len() == 0 {
        None
    } else {
        Some(string_array(v))
    }
}

/// An optional list of texts as an optional JSON array.
fn opt_array_json(o: &Option<Vec<String>>) -> (r: Option<JsonValue>)
    ensures
        match r {
            Some(x) => opt_array(opt_views(*o)) == Some(x@),
            None => opt_array(opt_views(*o)) is None,
        },
{
    match o {
        Some(v) => Some(string_array(v)),
        None => None,
    }
}

/// Optional pairs as an optional JSON object.
fn opt_pairs_json(o: &Option<Vec<(String, String)>>) -> (r: Option<JsonValue>)
    ensures
        match r {
            Some(x) => opt_pairs(opt_pair_views(*o)) == Some(x@),
            None => opt_pairs(opt_pair_views(*o)) is None,
        },
{
    match o {
        Some(p) => Some(pairs_json(p)),
        None => None,
    }
}

/// A copy of a list of texts.
fn copy_strings(v: &Vec<String>) -> (r: Vec<String>)
    ensures
        views_of(r@) == views_of(v@),
{
    let mut out: Vec<String> = Vec::new();
    let mut i: usize = 0;
    while i < v.len()
        invariant
            i <= v@.len(),
            views_of(out@) == views_of(v@).take(i as int),
        decreases v.len() - i,
    {
        let ghost before = out@;
        let c = v[i].clone();
        out.push(c);
        assert(out@ == before.push(c));
        assert(views_of(before.push(c)) =~= views_of(before).push(c@));
        assert(views_of(v@).take(i + 1) =~= views_of(v@).take(i as int).push(v@[i as int]@));
        i = i + 1;
    }
    assert(views_of(v@).take(v@.len() as int) =~= views_of(v@));
    out
}

// ---------------------------------------------------------------------------------------
// Account requests
// ---------------------------------------------------------------------------------------

/// Request body for `POST /AccountService/Accounts`.
pub struct AccountCreateRequest {
    user_name: String,
    password: String,
    role_id: Option<String>,
    enabled: Option<bool>,
}

/// The abstract content of an [`AccountCreateRequest`].
pub ghost struct AccountCreateRequestView {
    pub user_name: Seq<char>,
    pub password: Seq<char>,
    pub role_id: Option<Seq<char>>,
    pub enabled: Option<bool>,
}

impl View for AccountCreateRequest {
    type V = AccountCreateRequestView;

    closed spec fn view(&self) -> AccountCreateRequestView {
        AccountCreateRequestView {
            user_name: self.user_name@,
            password: self.password@,
            role_id: opt_view(self.role_id),
            enabled: self.enabled,
        }
    }
}

/// The JSON an account creation is sent as: `UserName` and `Password`, then `RoleId`
/// and `Enabled` where set.
pub open spec fn account_create_json(v: AccountCreateRequestView) -> JsonView {
    JsonView::Object(
        seq![("UserName"@, JsonView::String(v.user_name)), ("Password"@, JsonView::String(v.password))]
            + opt_member("RoleId"@, opt_text_json(v.role_id)) + opt_member(
            "Enabled"@,
            opt_bool_json(v.enabled),
        ),
    )
}

/// A change that the setters of an [`AccountCreateRequest`] make.
pub ghost enum AccountCreateEdit {
    /// [`AccountCreateRequest::role_id`].
    RoleId(Seq<char>),
    /// [`AccountCreateRequest::enabled`].
    Enabled(bool),
}

/// The request after one change.
pub open spec fn account_create_edit(v: AccountCreateRequestView, e: AccountCreateEdit) -> AccountCreateRequestView {
    match e {
        AccountCreateEdit::RoleId(r) => AccountCreateRequestView { role_id: Some(r), ..v },
        AccountCreateEdit::Enabled(b) => AccountCreateRequestView { enabled: Some(b), ..v },
    }
}

/// The request after a sequence of changes, applied in order.
pub open spec fn account_create_edits(v: AccountCreateRequestView, edits: Seq<AccountCreateEdit>) -> AccountCreateRequestView
    decreases edits.len(),
{
    if edits.len() == 0 {
        v
    } else {
        account_create_edit(account_create_edits(v, edits.drop_last()), edits.last())
    }
}

/// Setting the role or the enabled flag, any number of times in any order, keeps the
/// user name (and the password) that the request was made with.
pub proof fn lemma_edits_keep_user_name(v: AccountCreateRequestView, edits: Seq<AccountCreateEdit>)
    ensures
        account_create_edits(v, edits).user_name == v.user_name,
        account_create_edits(v, edits).password == v.password,
    decreases edits.len(),
{
    if edits.len() > 0 {
        lemma_edits_keep_user_name(v, edits.drop_last());
    }
}

impl AccountCreateRequest {
    /// A request to create this account. The password is kept as plain text because
    /// Redfish requires it in the JSON body.
    pub fn new(user_name: &str, password: &str) -> (r: AccountCreateRequest)
        ensures
            r@ == (AccountCreateRequestView {
                user_name: user_name@,
                password: password@,
                role_id: None,
                enabled: None,
            }),
    {
        AccountCreateRequest {
            user_name: user_name.to_owned(),
            password: password.to_owned(),
            role_id: None,
            enabled: None,
        }
    }

    /// The account's user name.
    pub fn user_name(&self) -> (r: &str)
        ensures
            r@ == self@.user_name,
    {
        self.user_name.as_str()
    }

    /// Sets the role.
    pub fn role_id(self, role_id: &str) -> (r: AccountCreateRequest)
        ensures
            r@ == account_create_edit(self@, AccountCreateEdit::RoleId(role_id@)),
    {
        AccountCreateRequest { role_id: Some(role_id.to_owned()), ..self }
    }

    /// Sets whether the account is enabled.
    pub fn enabled(self, enabled: bool) -> (r: AccountCreateRequest)
        ensures
            r@ == account_create_edit(self@, AccountCreateEdit::Enabled(enabled)),
    {
        AccountCreateRequest { enabled: Some(enabled), ..self }
    }

    /// The JSON body of the request (see [`account_create_json`]).
    pub fn to_json(&self) -> (r: JsonValue)
        ensures
            r@ == account_create_json(self@),
    {
        let mut m: Vec<(String, JsonValue)> = Vec::new();
        push_member(&mut m, "UserName", JsonValue::String(self.user_name.clone()));
        push_member(&mut m, "Password", JsonValue::String(self.password.clone()));
        push_opt_member(&mut m, "RoleId", text_json(&self.role_id));
        push_opt_member(&mut m, "Enabled", bool_json(self.enabled));
        proof {
            crate::json::lemma_object_view(m);
            assert(members_view(m@) =~= account_create_json(self@)->Object_0);
        }
        JsonValue::Object(m)
    }
}

/// Request body for `PATCH /AccountService/Accounts/{id}`.
pub struct AccountUpdateRequest {
    password: Option<String>,
    role_id: Option<String>,
    enabled: Option<bool>,
    locked: Option<bool>,
}

/// The abstract content of an [`AccountUpdateRequest`].
pub ghost struct AccountUpdateRequestView {
    pub password: Option<Seq<char>>,
    pub role_id: Option<Seq<char>>,
    pub enabled: Option<bool>,
    pub locked: Option<bool>,
}

impl View for AccountUpdateRequest {
    type V = AccountUpdateRequestView;

    closed spec fn view(&self) -> AccountUpdateRequestView {
        AccountUpdateRequestView {
            password: opt_view(self.password),
            role_id: opt_view(self.role_id),
            enabled: self.enabled,
            locked: self.locked,
        }
    }
}

/// Whether an account update changes nothing.
pub open spec fn account_update_empty(v: AccountUpdateRequestView) -> bool {
    v.password is None && v.role_id is None && v.enabled is None && v.locked is None
}

/// The JSON an account update is sent as: the fields that are set.
pub open spec fn account_update_json(v: AccountUpdateRequestView) -> JsonView {
    JsonView::Object(
        opt_member("Password"@, opt_text_json(v.password)) + opt_member(
            "RoleId"@,
            opt_text_json(v.role_id),
        ) + opt_member("Enabled"@, opt_bool_json(v.enabled)) + opt_member(
            "Locked"@,
            opt_bool_json(v.locked),
        ),
    )
}

impl AccountUpdateRequest {
    /// An update that changes nothing yet.
    pub fn new() -> (r: AccountUpdateRequest)
        ensures
            r@ == (AccountUpdateRequestView {
                password: None,
                role_id: None,
                enabled: None,
                locked: None,
            }),
    {
        AccountUpdateRequest { password: None, role_id: None, enabled: None, locked: None }
    }

    /// Sets the new password.
    pub fn password(self, password: &str) -> (r: AccountUpdateRequest)
        ensures
            r@ == (AccountUpdateRequestView { password: Some(password@), ..self@ }),
    {
        AccountUpdateRequest { password: Some(password.to_owned()), ..self }
    }

    /// Sets the role.
    pub fn role_id(self, role_id: &str) -> (r: AccountUpdateRequest)
        ensures
            r@ == (AccountUpdateRequestView { role_id: Some(role_id@), ..self@ }),
    {
        AccountUpdateRequest { role_id: Some(role_id.to_owned()), ..self }
    }

    /// Sets whether the account is enabled.
    pub fn enabled(self, enabled: bool) -> (r: AccountUpdateRequest)
        ensures
            r@ == (AccountUpdateRequestView { enabled: Some(enabled), ..self@ }),
    {
        AccountUpdateRequest { enabled: Some(enabled), ..self }
    }

    /// Sets whether the account is locked.
    pub fn locked(self, locked: bool) -> (r: AccountUpdateRequest)
        ensures
            r@ == (AccountUpdateRequestView { locked: Some(locked), ..self@ }),
    {
        AccountUpdateRequest { locked: Some(locked), ..self }
    }

    /// Whether the update changes nothing.
    pub fn is_empty(&self) -> (r: bool)
        ensures
            r == account_update_empty(self@),
    {
        self.password.is_none() && self.role_id.is_none() && self.enabled.is_none()
            && self.locked.is_none()
    }

    /// The JSON body of the request (see [`account_update_json`]).
    pub fn to_json(&self) -> (r: JsonValue)
        ensures
            r@ == account_update_json(self@),
    {
        let mut m: Vec<(String, JsonValue)> = Vec::new();
        push_opt_member(&mut m, "Password", text_json(&self.password));
        push_opt_member(&mut m, "RoleId", text_json(&self.role_id));
        push_opt_member(&mut m, "Enabled", bool_json(self.enabled));
        push_opt_member(&mut m, "Locked", bool_json(self.locked));
        proof {
            crate::json::lemma_object_view(m);
            assert(members_view(m@) =~= account_update_json(self@)->Object_0);
        }
        JsonValue::Object(m)
    }
}

impl Default for AccountUpdateRequest {
    fn default() -> (r: AccountUpdateRequest)
        ensures
            account_update_empty(r@),
    {
        AccountUpdateRequest::new()
    }
}

// ---------------------------------------------------------------------------------------
// Event subscriptions
// ---------------------------------------------------------------------------------------

/// Request body for `POST /EventService/Subscriptions`.
pub struct EventSubscriptionCreateRequest {
    destination: String,
    context: Option<String>,
    protocol: Option<String>,
    subscription_type: Option<String>,
    event_types: Vec<String>,
    registry_prefixes: Vec<String>,
    resource_types: Vec<String>,
    message_ids: Vec<String>,
    http_headers: Option<Vec<(String, String)>>,
}

/// The abstract content of an [`EventSubscriptionCreateRequest`].
pub ghost struct EventSubscriptionCreateRequestView {
    pub destination: Seq<char>,
    pub context: Option<Seq<char>>,
    pub protocol: Option<Seq<char>>,
    pub subscription_type: Option<Seq<char>>,
    pub event_types: Seq<Seq<char>>,
    pub registry_prefixes: Seq<Seq<char>>,
    pub resource_types: Seq<Seq<char>>,
    pub message_ids: Seq<Seq<char>>,
    pub http_headers: Option<Seq<(Seq<char>, Seq<char>)>>,
}

impl View for EventSubscriptionCreateRequest {
    type V = EventSubscriptionCreateRequestView;

    closed spec fn view(&self) -> EventSubscriptionCreateRequestView {
        EventSubscriptionCreateRequestView {
            destination: self.destination@,
            context: opt_view(self.context),
            protocol: opt_view(self.protocol),
            subscription_type: opt_view(self.subscription_type),
            event_types: views_of(self.event_types@),
            registry_prefixes: views_of(self.registry_prefixes@),
            resource_types: views_of(self.resource_types@),
            message_ids: views_of(self.message_ids@),
            http_headers: opt_pair_views(self.http_headers),
        }
    }
}

/// The JSON a subscription creation is sent as: `Destination`, then the texts that are
/// set, the lists that are not empty, and the headers where set.
pub open spec fn subscription_create_json(v: EventSubscriptionCreateRequestView) -> JsonView {
    JsonView::Object(
        seq![("Destination"@, JsonView::String(v.destination))] + opt_member(
            "Context"@,
            opt_text_json(v.context),
        ) + opt_member("Protocol"@, opt_text_json(v.protocol)) + opt_member(
            "SubscriptionType"@,
            opt_text_json(v.subscription_type),
        ) + opt_member("EventTypes"@, nonempty_array(v.event_types)) + opt_member(
            "RegistryPrefixes"@,
            nonempty_array(v.registry_prefixes),
        ) + opt_member("ResourceTypes"@, nonempty_array(v.resource_types)) + opt_member(
            "MessageIds"@,
            nonempty_array(v.message_ids),
        ) + opt_member("HttpHeaders"@, opt_pairs(v.http_headers)),
    )
}

impl EventSubscriptionCreateRequest {
    /// A subscription that posts events to `destination`.
    pub fn new(destination: &str) -> (r: EventSubscriptionCreateRequest)
        ensures
            r@ == (EventSubscriptionCreateRequestView {
                destination: destination@,
                context: None,
                protocol: None,
                subscription_type: None,
                event_types: Seq::empty(),
                registry_prefixes: Seq::empty(),
                resource_types: Seq::empty(),
                message_ids: Seq::empty(),
                http_headers: None,
            }),
    {
        let r = EventSubscriptionCreateRequest {
            destination: destination.to_owned(),
            context: None,
            protocol: None,
            subscription_type: None,
            event_types: Vec::new(),
            registry_prefixes: Vec::new(),
            resource_types: Vec::new(),
            message_ids: Vec::new(),
            http_headers: None,
        };
        assert(views_of(r.event_types@) =~= Seq::empty());
        assert(views_of(r.registry_prefixes@) =~= Seq::empty());
        assert(views_of(r.resource_types@) =~= Seq::empty());
        assert(views_of(r.message_ids@) =~= Seq::empty());
        r
    }

    /// The destination URI.
    pub fn destination(&self) -> (r: &str)
        ensures
            r@ == self@.destination,
    {
        self.destination.as_str()
    }

    /// Sets the context echoed in events.
    pub fn context(self, context: &str) -> (r: EventSubscriptionCreateRequest)
        ensures
            r@ == (EventSubscriptionCreateRequestView { context: Some(context@), ..self@ }),
    {
        EventSubscriptionCreateRequest { context: Some(context.to_owned()), ..self }
    }

    /// Sets the protocol.
    pub fn protocol(self, protocol: &str) -> (r: EventSubscriptionCreateRequest)
        ensures
            r@ == (EventSubscriptionCreateRequestView { protocol: Some(protocol@), ..self@ }),
    {
        EventSubscriptionCreateRequest { protocol: Some(protocol.to_owned()), ..self }
    }

    /// Sets the subscription type.
    pub fn subscription_type(self, subscription_type: &str) -> (r: EventSubscriptionCreateRequest)
        ensures
            r@ == (EventSubscriptionCreateRequestView {
                subscription_type: Some(subscription_type@),
                ..self@
            }),
    {
        EventSubscriptionCreateRequest {
            subscription_type: Some(subscription_type.to_owned()),
            ..self
        }
    }

    /// Sets the event types.
    pub fn event_types(self, event_types: Vec<String>) -> (r: EventSubscriptionCreateRequest)
        ensures
            r@ == (EventSubscriptionCreateRequestView {
                event_types: views_of(event_types@),
                ..self@
            }),
    {
        EventSubscriptionCreateRequest { event_types, ..self }
    }

    /// Sets the registry prefixes.
    pub fn registry_prefixes(self, registry_prefixes: Vec<String>) -> (r:
        EventSubscriptionCreateRequest)
        ensures
            r@ == (EventSubscriptionCreateRequestView {
                registry_prefixes: views_of(registry_prefixes@),
                ..self@
            }),
    {
        EventSubscriptionCreateRequest { registry_prefixes, ..self }
    }

    /// Sets the resource types.
    pub fn resource_types(self, resource_types: Vec<String>) -> (r:
        EventSubscriptionCreateRequest)
        ensures
            r@ == (EventSubscriptionCreateRequestView {
                resource_types: views_of(resource_types@),
                ..self@
            }),
    {
        EventSubscriptionCreateRequest { resource_types, ..self }
    }

    /// Sets the message ids.
    pub fn message_ids(self, message_ids: Vec<String>) -> (r: EventSubscriptionCreateRequest)
        ensures
            r@ == (EventSubscriptionCreateRequestView {
                message_ids: views_of(message_ids@),
                ..self@
            }),
    {
        EventSubscriptionCreateRequest { message_ids, ..self }
    }

    /// Sets the headers to include in event posts. They are kept as a map of names to
    /// values: sorted by name, one entry per name, the last value given for a name winning
    /// (see [`pairs_as_map`]).
    pub fn http_headers(self, headers: Vec<(String, String)>) -> (r:
        EventSubscriptionCreateRequest)
        ensures
            r@ == (EventSubscriptionCreateRequestView { http_headers: r@.http_headers, ..self@ }),
            r@.http_headers matches Some(p) && pairs_as_map(p, pair_views(headers@)),
    {
        EventSubscriptionCreateRequest { http_headers: Some(pairs_to_map(headers)), ..self }
    }

    /// The JSON body of the request (see [`subscription_create_json`]).
    pub fn to_json(&self) -> (r: JsonValue)
        ensures
            r@ == subscription_create_json(self@),
    {
        let mut m: Vec<(String, JsonValue)> = Vec::new();
        let ghost v = self@;
        push_member(&mut m, "Destination", JsonValue::String(self.destination.clone()));
        let ghost p0: Seq<(Seq<char>, JsonView)> = seq![("Destination"@, JsonView::String(v.destination))];
        assert(members_view(m@) =~= p0);
        push_opt_member(&mut m, "Context", text_json(&self.context));
        push_opt_member(&mut m, "Protocol", text_json(&self.protocol));
        push_opt_member(&mut m, "SubscriptionType", text_json(&self.subscription_type));
        let ghost p1 = p0 + opt_member("Context"@, opt_text_json(v.context)) + opt_member(
            "Protocol"@,
            opt_text_json(v.protocol),
        ) + opt_member("SubscriptionType"@, opt_text_json(v.subscription_type));
        assert(members_view(m@) == p1);
        push_opt_member(&mut m, "EventTypes", nonempty_array_json(&self.event_types));
        push_opt_member(&mut m, "RegistryPrefixes", nonempty_array_json(&self.registry_prefixes));
        let ghost p2 = p1 + opt_member("EventTypes"@, nonempty_array(v.event_types)) + opt_member(
            "RegistryPrefixes"@,
            nonempty_array(v.registry_prefixes),
        );
        assert(members_view(m@) == p2);
        push_opt_member(&mut m, "ResourceTypes", nonempty_array_json(&self.resource_types));
        push_opt_member(&mut m, "MessageIds", nonempty_array_json(&self.message_ids));
        let ghost p3 = p2 + opt_member("ResourceTypes"@, nonempty_array(v.resource_types))
            + opt_member("MessageIds"@, nonempty_array(v.message_ids));
        assert(members_view(m@) == p3);
        push_opt_member(&mut m, "HttpHeaders", opt_pairs_json(&self.http_headers));
        assert(members_view(m@) == p3 + opt_member("HttpHeaders"@, opt_pairs(v.http_headers)));
        proof {
            crate::json::lemma_object_view(m);
            assert(members_view(m@) =~= subscription_create_json(self@)->Object_0);
        }
        JsonValue::Object(m)
    }
}

/// Request body for `PATCH /EventService/Subscriptions/{id}`.
pub struct EventSubscriptionUpdateRequest {
    context: Option<String>,
    event_types: Option<Vec<String>>,
    registry_prefixes: Option<Vec<String>>,
    resource_types: Option<Vec<String>>,
    message_ids: Option<Vec<String>>,
    http_headers: Option<Vec<(String, String)>>,
}

/// The abstract content of an [`EventSubscriptionUpdateRequest`].
pub ghost struct EventSubscriptionUpdateRequestView {
    pub context: Option<Seq<char>>,
    pub event_types: Option<Seq<Seq<char>>>,
    pub registry_prefixes: Option<Seq<Seq<char>>>,
    pub resource_types: Option<Seq<Seq<char>>>,
    pub message_ids: Option<Seq<Seq<char>>>,
    pub http_headers: Option<Seq<(Seq<char>, Seq<char>)>>,
}

impl View for EventSubscriptionUpdateRequest {
    type V = EventSubscriptionUpdateRequestView;

    closed spec fn view(&self) -> EventSubscriptionUpdateRequestView {
        EventSubscriptionUpdateRequestView {
            context: opt_view(self.context),
            event_types: opt_views(self.event_types),
            registry_prefixes: opt_views(self.registry_prefixes),
            resource_types: opt_views(self.resource_types),
            message_ids: opt_views(self.message_ids),
            http_headers: opt_pair_views(self.http_headers),
        }
    }
}

/// Whether a subscription update changes nothing.
pub open spec fn subscription_update_empty(v: EventSubscriptionUpdateRequestView) -> bool {
    &&& v.context is None
    &&& v.event_types is None
    &&& v.registry_prefixes is None
    &&& v.resource_types is None
    &&& v.message_ids is None
    &&& v.http_headers is None
}

/// The JSON a subscription update is sent as: the fields that are set (a list that is
/// set is sent even where empty).
pub open spec fn subscription_update_json(v: EventSubscriptionUpdateRequestView) -> JsonView {
    JsonView::Object(
        opt_member("Context"@, opt_text_json(v.context)) + opt_member(
            "EventTypes"@,
            opt_array(v.event_types),
        ) + opt_member("RegistryPrefixes"@, opt_array(v.registry_prefixes)) + opt_member(
            "ResourceTypes"@,
            opt_array(v.resource_types),
        ) + opt_member("MessageIds"@, opt_array(v.message_ids)) + opt_member(
            "HttpHeaders"@,
            opt_pairs(v.http_headers),
        ),
    )
}

impl EventSubscriptionUpdateRequest {
    /// An update that changes nothing yet.
    pub fn new() -> (r: EventSubscriptionUpdateRequest)
        ensures
            r@ == (EventSubscriptionUpdateRequestView {
                context: None,
                event_types: None,
                registry_prefixes: None,
                resource_types: None,
                message_ids: None,
                http_headers: None,
            }),
    {
        EventSubscriptionUpdateRequest {
            context: None,
            event_types: None,
            registry_prefixes: None,
            resource_types: None,
            message_ids: None,
            http_headers: None,
        }
    }

    /// Sets the context.
    pub fn context(self, context: &str) -> (r: EventSubscriptionUpdateRequest)
        ensures
            r@ == (EventSubscriptionUpdateRequestView { context: Some(context@), ..self@ }),
    {
        EventSubscriptionUpdateRequest { context: Some(context.to_owned()), ..self }
    }

    /// Sets the event types.
    pub fn event_types(self, event_types: Vec<String>) -> (r: EventSubscriptionUpdateRequest)
        ensures
            r@ == (EventSubscriptionUpdateRequestView {
                event_types: Some(views_of(event_types@)),
                ..self@
            }),
    {
        EventSubscriptionUpdateRequest { event_types: Some(event_types), ..self }
    }

    /// Sets the registry prefixes.
    pub fn registry_prefixes(self, registry_prefixes: Vec<String>) -> (r:
        EventSubscriptionUpdateRequest)
        ensures
            r@ == (EventSubscriptionUpdateRequestView {
                registry_prefixes: Some(views_of(registry_prefixes@)),
                ..self@
            }),
    {
        EventSubscriptionUpdateRequest { registry_prefixes: Some(registry_prefixes), ..self }
    }

    /// Sets the resource types.
    pub fn resource_types(self, resource_types: Vec<String>) -> (r:
        EventSubscriptionUpdateRequest)
        ensures
            r@ == (EventSubscriptionUpdateRequestView {
                resource_types: Some(views_of(resource_types@)),
                ..self@
            }),
    {
        EventSubscriptionUpdateRequest { resource_types: Some(resource_types), ..self }
    }

    /// Sets the message ids.
    pub fn message_ids(self, message_ids: Vec<String>) -> (r: EventSubscriptionUpdateRequest)
        ensures
            r@ == (EventSubscriptionUpdateRequestView {
                message_ids: Some(views_of(message_ids@)),
                ..self@
            }),
    {
        EventSubscriptionUpdateRequest { message_ids: Some(message_ids), ..self }
    }

    /// Sets the headers to include in event posts. They are kept as a map of names to
    /// values: sorted by name, one entry per name, the last value given for a name winning
    /// (see [`pairs_as_map`]).
    pub fn http_headers(self, headers: Vec<(String, String)>) -> (r:
        EventSubscriptionUpdateRequest)
        ensures
            r@ == (EventSubscriptionUpdateRequestView { http_headers: r@.http_headers, ..self@ }),
            r@.http_headers matches Some(p) && pairs_as_map(p, pair_views(headers@)),
    {
        EventSubscriptionUpdateRequest { http_headers: Some(pairs_to_map(headers)), ..self }
    }

    /// Whether the update changes nothing.
    pub fn is_empty(&self) -> (r: bool)
        ensures
            r == subscription_update_empty(self@),
    {
        self.context.is_none() && self.event_types.is_none() && self.registry_prefixes.is_none()
            && self.resource_types.is_none() && self.message_ids.is_none()
            && self.http_headers.is_none()
    }

    /// The JSON body of the request (see [`subscription_update_json`]).
    pub fn to_json(&self) -> (r: JsonValue)
        ensures
            r@ == subscription_update_json(self@),
    {
        let mut m: Vec<(String, JsonValue)> = Vec::new();
        push_opt_member(&mut m, "Context", text_json(&self.context));
        push_opt_member(&mut m, "EventTypes", opt_array_json(&self.event_types));
        push_opt_member(&mut m, "RegistryPrefixes", opt_array_json(&self.registry_prefixes));
        push_opt_member(&mut m, "ResourceTypes", opt_array_json(&self.resource_types));
        push_opt_member(&mut m, "MessageIds", opt_array_json(&self.message_ids));
        push_opt_member(&mut m, "HttpHeaders", opt_pairs_json(&self.http_headers));
        proof {
            crate::json::lemma_object_view(m);
            assert(members_view(m@) =~= subscription_update_json(self@)->Object_0);
        }
        JsonValue::Object(m)
    }
}

impl Default for EventSubscriptionUpdateRequest {
    fn default() -> (r: EventSubscriptionUpdateRequest)
        ensures
            subscription_update_empty(r@),
    {
        EventSubscriptionUpdateRequest::new()
    }
}

/// Whether a header carries credentials: its trimmed, lower-cased name is
/// `authorization`, `x-auth-token`, `cookie` or `set-cookie`.
pub open spec fn sensitive_header(name: Seq<char>) -> bool {
    let n = lower_spec(trim_spec(name));
    n == "authorization"@ || n == "x-auth-token"@ || n == "cookie"@ || n == "set-cookie"@
}

/// Whether a header carries credentials (see [`sensitive_header`]).
pub fn is_sensitive_header(name: &str) -> (r: bool)
    ensures
        r == sensitive_header(name@),
{
    let n = lower_chars(trim_chars(chars_of(name).as_slice()).as_slice());
    let s = crate::text::string_of(n.as_slice());
    s == String::from_str("authorization") || s == String::from_str("x-auth-token") || s
        == String::from_str("cookie") || s == String::from_str("set-cookie")
}

/// Header pairs with the value of every credential-carrying header replaced by
/// `<redacted>`, for display.
pub open spec fn redacted_pairs(p: Seq<(Seq<char>, Seq<char>)>) -> Seq<(Seq<char>, Seq<char>)> {
    Seq::new(
        p.len(),
        |i: int|
            if sensitive_header(p[i].0) {
                (p[i].0, "<redacted>"@)
            } else {
                p[i]
            },
    )
}

/// Header pairs with credentials replaced by `<redacted>` (see [`redacted_pairs`]).
pub fn redacted_header_pairs(headers: &Option<Vec<(String, String)>>) -> (r: Option<
    Vec<(String, String)>,
>)
    ensures
        match headers {
            Some(p) => r matches Some(q) && pair_views(q@) == redacted_pairs(pair_views(p@)),
            None => r is None,
        },
{
    let p = match headers {
        Some(p) => p,
        None => {
            return None;
        },
    };
    let mut out: Vec<(String, String)> = Vec::new();
    let mut i: usize = 0;
    while i < p.len()
        invariant
            i <= p@.len(),
            out@.len() == i,
            forall|k: int|
                0 <= k < i ==> (#[trigger] pair_views(out@)[k]) == redacted_pairs(pair_views(p@))[k],
        decreases p.len() - i,
    {
        let k = p[i].0.clone();
        let v = if is_sensitive_header(p[i].0.as_str()) {
            "<redacted>".to_owned()
        } else {
            p[i].1.clone()
        };
        let ghost before = out@;
        out.push((k, v));
        assert forall|j: int| 0 <= j < i + 1 implies (#[trigger] pair_views(out@)[j])
            == redacted_pairs(pair_views(p@))[j] by {
            if j < i {
                assert(out@[j] == before[j]);
                assert(pair_views(before)[j] == redacted_pairs(pair_views(p@))[j]);
            }
        }
        i = i + 1;
    }
    assert(pair_views(out@) =~= redacted_pairs(pair_views(p@)));
    Some(out)
}

// ---------------------------------------------------------------------------------------
// Updates and resets
// ---------------------------------------------------------------------------------------

/// Request body for `POST /UpdateService/Actions/UpdateService.SimpleUpdate`.
pub struct SimpleUpdateRequest {
    image_uri: String,
    transfer_protocol: Option<String>,
    targets: Vec<String>,
    username: Option<String>,
    password: Option<String>,
    force_update: Option<bool>,
}

/// The abstract content of a [`SimpleUpdateRequest`].
pub ghost struct SimpleUpdateRequestView {
    pub image_uri: Seq<char>,
    pub transfer_protocol: Option<Seq<char>>,
    pub targets: Seq<Seq<char>>,
    pub username: Option<Seq<char>>,
    pub password: Option<Seq<char>>,
    pub force_update: Option<bool>,
}

impl View for SimpleUpdateRequest {
    type V = SimpleUpdateRequestView;

    closed spec fn view(&self) -> SimpleUpdateRequestView {
        SimpleUpdateRequestView {
            image_uri: self.image_uri@,
            transfer_protocol: opt_view(self.transfer_protocol),
            targets: views_of(self.targets@),
            username: opt_view(self.username),
            password: opt_view(self.password),
            force_update: self.force_update,
        }
    }
}

/// The JSON a simple update is sent as: `ImageURI`, then what is set (the targets where
/// not empty).
pub open spec fn simple_update_json(v: SimpleUpdateRequestView) -> JsonView {
    JsonView::Object(
        seq![("ImageURI"@, JsonView::String(v.image_uri))] + opt_member(
            "TransferProtocol"@,
            opt_text_json(v.transfer_protocol),
        ) + opt_member("Targets"@, nonempty_array(v.targets)) + opt_member(
            "Username"@,
            opt_text_json(v.username),
        ) + opt_member("Password"@, opt_text_json(v.password)) + opt_member(
            "ForceUpdate"@,
            opt_bool_json(v.force_update),
        ),
    )
}

impl SimpleUpdateRequest {
    /// An update from the image at `image_uri`.
    pub fn new(image_uri: &str) -> (r: SimpleUpdateRequest)
        ensures
            r@ == (SimpleUpdateRequestView {
                image_uri: image_uri@,
                transfer_protocol: None,
                targets: Seq::empty(),
                username: None,
                password: None,
                force_update: None,
            }),
    {
        let r = SimpleUpdateRequest {
            image_uri: image_uri.to_owned(),
            transfer_protocol: None,
            targets: Vec::new(),
            username: None,
            password: None,
            force_update: None,
        };
        assert(views_of(r.targets@) =~= Seq::empty());
        r
    }

    /// The image URI.
    pub fn image_uri(&self) -> (r: &str)
        ensures
            r@ == self@.image_uri,
    {
        self.image_uri.as_str()
    }

    /// Sets the transfer protocol.
    pub fn transfer_protocol(self, transfer_protocol: &str) -> (r: SimpleUpdateRequest)
        ensures
            r@ == (SimpleUpdateRequestView {
                transfer_protocol: Some(transfer_protocol@),
                ..self@
            }),
    {
        SimpleUpdateRequest { transfer_protocol: Some(transfer_protocol.to_owned()), ..self }
    }

    /// Sets the target URIs.
    pub fn targets(self, targets: Vec<String>) -> (r: SimpleUpdateRequest)
        ensures
            r@ == (SimpleUpdateRequestView { targets: views_of(targets@), ..self@ }),
    {
        SimpleUpdateRequest { targets, ..self }
    }

    /// Sets the user name for the image URI.
    pub fn username(self, username: &str) -> (r: SimpleUpdateRequest)
        ensures
            r@ == (SimpleUpdateRequestView { username: Some(username@), ..self@ }),
    {
        SimpleUpdateRequest { username: Some(username.to_owned()), ..self }
    }

    /// Sets the password for the image URI.
    pub fn password(self, password: &str) -> (r: SimpleUpdateRequest)
        ensures
            r@ == (SimpleUpdateRequestView { password: Some(password@), ..self@ }),
    {
        SimpleUpdateRequest { password: Some(password.to_owned()), ..self }
    }

    /// Allows the update even where the host is powered on.
    pub fn force_update(self, yes: bool) -> (r: SimpleUpdateRequest)
        ensures
            r@ == (SimpleUpdateRequestView { force_update: Some(yes), ..self@ }),
    {
        SimpleUpdateRequest { force_update: Some(yes), ..self }
    }

    /// The JSON body of the request (see [`simple_update_json`]).
    pub fn to_json(&self) -> (r: JsonValue)
        ensures
            r@ == simple_update_json(self@),
    {
        let mut m: Vec<(String, JsonValue)> = Vec::new();
        push_member(&mut m, "ImageURI", JsonValue::String(self.image_uri.clone()));
        push_opt_member(&mut m, "TransferProtocol", text_json(&self.transfer_protocol));
        push_opt_member(&mut m, "Targets", nonempty_array_json(&self.targets));
        push_opt_member(&mut m, "Username", text_json(&self.username));
        push_opt_member(&mut m, "Password", text_json(&self.password));
        push_opt_member(&mut m, "ForceUpdate", bool_json(self.force_update));
        proof {
            crate::json::lemma_object_view(m);
            assert(members_view(m@) =~= simple_update_json(self@)->Object_0);
        }
        JsonValue::Object(m)
    }
}

/// The JSON of a reset action: `{"ResetType": <name>}`.
pub open spec fn reset_request_json(t: ResetType) -> JsonView {
    JsonView::Object(seq![("ResetType"@, JsonView::String(reset_type_name(t)))])
}

/// The JSON body of a reset action (see [`reset_request_json`]).
pub fn reset_request(t: ResetType) -> (r: JsonValue)
    ensures
        r@ == reset_request_json(t),
{
    let mut m: Vec<(String, JsonValue)> = Vec::new();
    push_member(&mut m, "ResetType", JsonValue::String(t.as_str().to_owned()));
    proof {
        crate::json::lemma_object_view(m);
        assert(members_view(m@) =~= reset_request_json(t)->Object_0);
    }
    JsonValue::Object(m)
}

} // verus!
