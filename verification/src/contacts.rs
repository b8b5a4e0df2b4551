//! The contacts service message schema, together with the conversions from
//! the host-side integer encodings of its filter options.

use crate::messages::SystemTime;
use crate::traits::TrackerId;
use vstd::prelude::*;

verus! {

/// The schema fingerprint the daemon must agree on for this service.
pub const SERVICE_FINGERPRINT: &'static str =
    "a7ab5919f6ff24f594d94ce1e98aae136fb19fbc4c11af93c51b76bb8453d";

/// What happened to a stored record.
#[derive(Clone, Copy, Debug, PartialEq, Eq, Structural)]
pub enum ChangeReason {
    Create,
    Update,
    Remove,
}

/// Which field a contact filter applies to.
#[derive(Clone, Copy, Debug, PartialEq, Eq, Structural)]
pub enum FilterByOption {
    Name,
    GivenName,
    FamilyName,
    Tel,
    Email,
    Category,
}

impl FilterByOption {
    /// The field encoded by the host-side integer; values past the last
    /// field are invalid.
    pub fn from_u16(value: u16) -> (r: Option<FilterByOption>)
        ensures
            value == 0 ==> r == Some(FilterByOption::Name),
            value == 1 ==> r == Some(FilterByOption::GivenName),
            value == 2 ==> r == Some(FilterByOption::FamilyName),
            value == 3 ==> r == Some(FilterByOption::Tel),
            value == 4 ==> r == Some(FilterByOption::Email),
            value == 5 ==> r == Some(FilterByOption::Category),
            value > 5 ==> r is None,
    {
        match value {
            0 => Some(FilterByOption::Name),
            1 => Some(FilterByOption::GivenName),
            2 => Some(FilterByOption::FamilyName),
            3 => Some(FilterByOption::Tel),
            4 => Some(FilterByOption::Email),
            5 => Some(FilterByOption::Category),
            _ => None,
        }
    }
}

/// How a contact filter compares values.
#[derive(Clone, Copy, Debug, PartialEq, Eq, Structural)]
pub enum FilterOption {
    Equals,
    Contains,
    Match,
    StartsWith,
    FuzzyMatch,
}

impl FilterOption {
    /// The comparison encoded by the host-side integer; values past the
    /// last one are invalid.
    pub fn from_u16(value: u16) -> (r: Option<FilterOption>)
        ensures
            value == 0 ==> r == Some(FilterOption::Equals),
            value == 1 ==> r == Some(FilterOption::Contains),
            value == 2 ==> r == Some(FilterOption::Match),
            value == 3 ==> r == Some(FilterOption::StartsWith),
            value == 4 ==> r == Some(FilterOption::FuzzyMatch),
            value > 4 ==> r is None,
    {
        match value {
            0 => Some(FilterOption::Equals),
            1 => Some(FilterOption::Contains),
            2 => Some(FilterOption::Match),
            3 => Some(FilterOption::StartsWith),
            4 => Some(FilterOption::FuzzyMatch),
            _ => None,
        }
    }

    /// As `from_u16`, but mapping invalid encodings to `Equals` — the
    /// lenient reading used when the value comes from stored find options.
    pub fn from_u16_or_equals(value: u16) -> (r: FilterOption)
        ensures
            value == 1 ==> r == FilterOption::Contains,
            value == 2 ==> r == FilterOption::Match,
            value == 3 ==> r == FilterOption::StartsWith,
            value == 4 ==> r == FilterOption::FuzzyMatch,
            (value == 0 || value > 4) ==> r == FilterOption::Equals,
    {
        match FilterOption::from_u16(value) {
            Some(option) => option,
            None => FilterOption::Equals,
        }
    }
}

/// Sort direction.
#[derive(Clone, Copy, Debug, PartialEq, Eq, Structural)]
pub enum Order {
    Ascending,
    Descending,
}

/// Which name field sorting goes by.
#[derive(Clone, Copy, Debug, PartialEq, Eq, Structural)]
pub enum SortOption {
    GivenName,
    FamilyName,
    Name,
}

#[derive(Clone, Debug)]
pub struct Address {
    pub atype: Option<String>,
    pub street_address: Option<String>,
    pub locality: Option<String>,
    pub region: Option<String>,
    pub postal_code: Option<String>,
    pub country_name: Option<String>,
    pub pref: Option<bool>,
}

#[derive(Clone, Debug)]
pub struct AlphabetSearchOptions {
    pub filter_value: String,
    pub batch_size: i64,
    pub filter_limit: Option<i64>,
    pub only_main_data: Option<bool>,
}

#[derive(Clone, Debug)]
pub struct BlockedNumberChangeEvent {
    pub reason: ChangeReason,
    pub number: String,
}

#[derive(Clone, Debug)]
pub struct BlockedNumberFindOptions {
    pub filter_value: String,
    pub filter_option: FilterOption,
}

#[derive(Clone, Debug)]
pub struct ContactField {
    pub atype: Option<String>,
    pub value: String,
    pub pref: Option<bool>,
}

#[derive(Clone, Debug)]
pub struct ContactFindSortOptions {
    pub sort_by: Option<SortOption>,
    pub sort_order: Option<Order>,
    pub sort_language: Option<String>,
    pub filter_value: String,
    pub filter_option: FilterOption,
    pub filter_by: Vec<FilterByOption>,
    pub only_main_data: Option<bool>,
}

#[derive(Clone, Debug)]
pub struct ContactTelField {
    pub atype: Option<String>,
    pub value: String,
    pub pref: Option<bool>,
    pub carrier: Option<String>,
}

#[derive(Clone, Debug)]
pub struct ContactInfo {
    pub id: Option<String>,
    pub published: Option<SystemTime>,
    pub updated: Option<SystemTime>,
    pub bday: Option<SystemTime>,
    pub anniversary: Option<SystemTime>,
    pub sex: Option<String>,
    pub gender_identity: Option<String>,
    pub ringtone: Option<String>,
    pub photo_type: Option<String>,
    pub photo_blob: Option<Vec<u8>>,
    pub addresses: Option<Vec<Address>>,
    pub email: Option<Vec<ContactField>>,
    pub url: Option<Vec<ContactField>>,
    pub name: Option<String>,
    pub tel: Option<Vec<ContactTelField>>,
    pub honorific_prefix: Option<Vec<String>>,
    pub given_name: Option<String>,
    pub phonetic_given_name: Option<String>,
    pub additional_name: Option<Vec<String>>,
    pub family_name: Option<String>,
    pub phonetic_family_name: Option<String>,
    pub honorific_suffix: Option<Vec<String>>,
    pub nickname: Option<Vec<String>>,
    pub category: Option<Vec<String>>,
    pub org: Option<Vec<String>>,
    pub job_title: Option<Vec<String>>,
    pub note: Option<Vec<String>>,
    pub groups: Option<Vec<String>>,
    pub ice_position: i64,
}

#[derive(Clone, Debug)]
pub struct ContactSortOptions {
    pub sort_by: SortOption,
    pub sort_order: Order,
    pub sort_language: Option<String>,
}

#[derive(Clone, Debug)]
pub struct ContactsChangeEvent {
    pub reason: ChangeReason,
    pub contacts: Option<Vec<ContactInfo>>,
}

#[derive(Clone, Debug)]
pub struct GroupInfo {
    pub id: String,
    pub name: String,
}

#[derive(Clone, Debug)]
pub struct GroupChangeEvent {
    pub reason: ChangeReason,
    pub group: GroupInfo,
}

#[derive(Clone, Debug)]
pub struct IceInfo {
    pub position: i64,
    pub contact_id: String,
}

/// One contact as stored on a SIM card.
#[derive(Clone, Debug)]
pub struct SimContactInfo {
    pub id: String,
    pub tel: String,
    pub email: String,
    pub name: String,
    pub category: String,
}

#[derive(Clone, Debug)]
pub struct SimContactLoadedEvent {
    pub remove_count: i64,
    pub update_count: i64,
}

#[derive(Clone, Debug)]
pub struct SpeedDialInfo {
    pub dial_key: String,
    pub tel: String,
    pub contact_id: String,
}

#[derive(Clone, Debug)]
pub struct SpeedDialChangeEvent {
    pub reason: ChangeReason,
    pub speeddial: SpeedDialInfo,
}

/// The requests the contacts service accepts from this client.
#[derive(Clone, Debug)]
pub enum ContactsManagerFromClient {
    ContactCursorNext,
    ContactsFactoryAdd(Vec<ContactInfo>),
    ContactsFactoryAddBlockedNumber(String),
    ContactsFactoryAddGroup(String),
    ContactsFactoryAddSpeedDial(String, String, String),
    ContactsFactoryAlphabetSearch(AlphabetSearchOptions),
    ContactsFactoryClearContacts,
    ContactsFactoryFind(ContactFindSortOptions, i64),
    ContactsFactoryFindBlockedNumbers(BlockedNumberFindOptions),
    ContactsFactoryGet(String, bool),
    ContactsFactoryGetAll(ContactSortOptions, i64, bool),
    ContactsFactoryGetAllBlockedNumbers,
    ContactsFactoryGetAllGroups,
    ContactsFactoryGetAllIce,
    ContactsFactoryGetContactidsFromGroup(String),
    ContactsFactoryGetCount,
    ContactsFactoryGetSpeedDials,
    ContactsFactoryImportVcf(String),
    ContactsFactoryMatches(FilterByOption, FilterOption, String),
    ContactsFactoryRemove(Vec<String>),
    ContactsFactoryRemoveBlockedNumber(String),
    ContactsFactoryRemoveGroup(String),
    ContactsFactoryRemoveIce(String),
    ContactsFactoryRemoveSpeedDial(String),
    ContactsFactorySetIce(String, i64),
    ContactsFactoryUpdate(Vec<ContactInfo>),
    ContactsFactoryUpdateGroup(String, String),
    ContactsFactoryUpdateSpeedDial(String, String, String),
}

/// The responses and events the contacts service sends to this client.
#[derive(Clone, Debug)]
pub enum ContactsManagerToClient {
    ContactCursorNextSuccess(Vec<ContactInfo>),
    ContactCursorNextError,
    ContactsFactoryAddSuccess,
    ContactsFactoryAddError,
    ContactsFactoryAddBlockedNumberSuccess,
    ContactsFactoryAddBlockedNumberError,
    ContactsFactoryAddGroupSuccess,
    ContactsFactoryAddGroupError,
    ContactsFactoryAddSpeedDialSuccess,
    ContactsFactoryAddSpeedDialError,
    ContactsFactoryAlphabetSearchSuccess(u32),
    ContactsFactoryAlphabetSearchError,
    ContactsFactoryClearContactsSuccess,
    ContactsFactoryClearContactsError,
    ContactsFactoryFindSuccess(u32),
    ContactsFactoryFindError,
    ContactsFactoryFindBlockedNumbersSuccess(Option<Vec<String>>),
    ContactsFactoryFindBlockedNumbersError,
    ContactsFactoryGetSuccess(ContactInfo),
    ContactsFactoryGetError,
    ContactsFactoryGetAllSuccess(u32),
    ContactsFactoryGetAllError,
    ContactsFactoryGetAllBlockedNumbersSuccess(Option<Vec<String>>),
    ContactsFactoryGetAllBlockedNumbersError,
    ContactsFactoryGetAllGroupsSuccess(Option<Vec<GroupInfo>>),
    ContactsFactoryGetAllGroupsError,
    ContactsFactoryGetAllIceSuccess(Option<Vec<IceInfo>>),
    ContactsFactoryGetAllIceError,
    ContactsFactoryGetContactidsFromGroupSuccess(Option<Vec<String>>),
    ContactsFactoryGetContactidsFromGroupError,
    ContactsFactoryGetCountSuccess(i64),
    ContactsFactoryGetCountError,
    ContactsFactoryGetSpeedDialsSuccess(Option<Vec<SpeedDialInfo>>),
    ContactsFactoryGetSpeedDialsError,
    ContactsFactoryImportVcfSuccess(i64),
    ContactsFactoryImportVcfError,
    ContactsFactoryMatchesSuccess(bool),
    ContactsFactoryMatchesError,
}

/// The typed contacts-service client: builds the wire requests; the
/// surrounding state machine decides when they may be sent.
pub struct ContactsClient {
    service_id: TrackerId,
}

impl ContactsClient {
    pub closed spec fn spec_service_id(self) -> TrackerId {
        self.service_id
    }

    pub fn new(service_id: TrackerId) -> (r: Self)
        ensures
            r.spec_service_id() == service_id,
    {
        ContactsClient { service_id }
    }

    /// The resolved service id this client talks to.
    pub fn service_id(&self) -> (r: TrackerId)
        ensures
            r == self.spec_service_id(),
    {
        self.service_id
    }

    /// The request asking whether any contact matches `value` under the
    /// given field and comparison.
    pub fn matches(&self, filter_by: FilterByOption, filter: FilterOption, value: String) -> (r:
        ContactsManagerFromClient)
        ensures
            r == ContactsManagerFromClient::ContactsFactoryMatches(filter_by, filter, value),
    {
        ContactsManagerFromClient::ContactsFactoryMatches(filter_by, filter, value)
    }

    /// The request searching the blocked numbers.
    pub fn find_blocked_numbers(&self, options: BlockedNumberFindOptions) -> (r:
        ContactsManagerFromClient)
        ensures
            r == ContactsManagerFromClient::ContactsFactoryFindBlockedNumbers(options),
    {
        ContactsManagerFromClient::ContactsFactoryFindBlockedNumbers(options)
    }
}

/// What a decoded `Matches` response means to the waiting caller.
#[derive(Clone, Copy, Debug, PartialEq, Eq, Structural)]
pub enum MatchesOutcome {
    Resolved(bool),
    Rejected,
    Ignored,
}

/// Classification of a response to `Matches`: the answer, the error, or —
/// after a decode mismatch — neither, with the mismatch merely reported.
pub open spec fn matches_outcome(r: Option<ContactsManagerToClient>) -> MatchesOutcome {
    match r {
        Some(ContactsManagerToClient::ContactsFactoryMatchesSuccess(v)) => MatchesOutcome::Resolved(
            v,
        ),
        Some(ContactsManagerToClient::ContactsFactoryMatchesError) => MatchesOutcome::Rejected,
        _ => MatchesOutcome::Ignored,
    }
}

/// Classifies a decoded response for a caller waiting on `Matches`.
pub fn classify_matches(r: Option<ContactsManagerToClient>) -> (o: MatchesOutcome)
    ensures
        o == matches_outcome(r),
{
    match r {
        Some(ContactsManagerToClient::ContactsFactoryMatchesSuccess(v)) => MatchesOutcome::Resolved(
            v,
        ),
        Some(ContactsManagerToClient::ContactsFactoryMatchesError) => MatchesOutcome::Rejected,
        _ => MatchesOutcome::Ignored,
    }
}

/// What a decoded `FindBlockedNumbers` response means to the waiting
/// caller.
#[derive(Clone, Debug)]
pub enum FindBlockedNumbersOutcome {
    Resolved(Option<Vec<String>>),
    Rejected,
    Ignored,
}

/// Classifies a decoded response for a caller waiting on
/// `FindBlockedNumbers`: the found numbers, the error, or — after a decode
/// mismatch — neither.
pub fn classify_find_blocked_numbers(r: Option<ContactsManagerToClient>) -> (o:
    FindBlockedNumbersOutcome)
    ensures
        match r {
            Some(ContactsManagerToClient::ContactsFactoryFindBlockedNumbersSuccess(v)) => o
                matches FindBlockedNumbersOutcome::Resolved(v2) && v2 == v,
            Some(ContactsManagerToClient::ContactsFactoryFindBlockedNumbersError) => o
                is Rejected,
            _ => o is Ignored,
        },
{
    match r {
        Some(
            ContactsManagerToClient::ContactsFactoryFindBlockedNumbersSuccess(v),
        ) => FindBlockedNumbersOutcome::Resolved(v),
        Some(
            ContactsManagerToClient::ContactsFactoryFindBlockedNumbersError,
        ) => FindBlockedNumbersOutcome::Rejected,
        _ => FindBlockedNumbersOutcome::Ignored,
    }
}

} // verus!
