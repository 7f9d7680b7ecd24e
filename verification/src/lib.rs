use vstd::prelude::*;
use vstd::string::*;

pub mod api;
pub mod b64;
pub mod challenge;
pub mod client;
pub mod json;
pub mod laws;
pub mod ratelimit;
pub mod text;
pub mod validation;
pub mod wire;

use crate::challenge::{Challenge, ChallengeType, ChallengeView, DecodeError};

verus! {

/// A failure that the server reported, one variant for each message that is
/// known.
#[derive(Debug, PartialEq, Eq)]
pub enum ApiError {
    Internal,
    BadRequest,
    RequestMissingArgument(String),
    Ratelimited,
    /// A failure that no rule names: the status code and the server's message.
    Unknown(u16, Option<String>),
    Unauthorized,
    InvalidBirthdate,
    InvalidDisplayName,
    InvalidGender,
    InvalidUser,
    InvalidUserId,
    PinIsLocked,
    TokenValidation,
    CaptchaFailed,
    /// The server asks for a challenge to be solved first.
    ChallengeRequired(Challenge),
    ChallengeFailed,
    /// The server asks for a challenge, and the response's headers do not
    /// describe one.
    MalformedChallenge(DecodeError),
    InvalidChallengeId,
    InvalidTwoStepVerificationCode,
    TwoStepVerificationMaintenance,
    /// The response listed several failures, or none; they are kept in the
    /// order received.
    Multiple(Vec<ApiError>),
    PermissionError,
    AccontLocked,
    AccountIssue,
    InvalidCredentials,
    UnverifiedCredentials,
    ExistingLoginSession,
    DefaultLoginRequired,
    VNGAppLoginRequired,
    LuoBuAppLoginRequired,
    SocialNetworkLoginRequired,
    InvalidAssetId,
    InvalidBrowserTrackerId,
    AlreadyInGroup,
    AlreadyInGroupRequests,
    UnsupportedSortOrder,
    InvalidBadge,
    ConversationCreationFailed,
    InvalidConversation,
    ConversationUserAddFailed,
    NotEnoughFunds(Currency),
}

/// An `ApiError` as a mathematical value.
pub enum ApiErrorView {
    Internal,
    BadRequest,
    RequestMissingArgument(Seq<char>),
    Ratelimited,
    Unknown(u16, Option<Seq<char>>),
    Unauthorized,
    InvalidBirthdate,
    InvalidDisplayName,
    InvalidGender,
    InvalidUser,
    InvalidUserId,
    PinIsLocked,
    TokenValidation,
    CaptchaFailed,
    ChallengeRequired(ChallengeView),
    ChallengeFailed,
    MalformedChallenge(DecodeError),
    InvalidChallengeId,
    InvalidTwoStepVerificationCode,
    TwoStepVerificationMaintenance,
    Multiple(Seq<ApiErrorView>),
    PermissionError,
    AccontLocked,
    AccountIssue,
    InvalidCredentials,
    UnverifiedCredentials,
    ExistingLoginSession,
    DefaultLoginRequired,
    VNGAppLoginRequired,
    LuoBuAppLoginRequired,
    SocialNetworkLoginRequired,
    InvalidAssetId,
    InvalidBrowserTrackerId,
    AlreadyInGroup,
    AlreadyInGroupRequests,
    UnsupportedSortOrder,
    InvalidBadge,
    ConversationCreationFailed,
    InvalidConversation,
    ConversationUserAddFailed,
    NotEnoughFunds(Currency),
}

/// The view of an optional string.
pub open spec fn option_text(s: Option<String>) -> Option<Seq<char>> {
    match s {
        Some(s) => Some(s@),
        None => None,
    }
}

impl View for ApiError {
    type V = ApiErrorView;

    open spec fn view(&self) -> ApiErrorView
        decreases self,
    {
        match self {
            ApiError::Internal => ApiErrorView::Internal,
            ApiError::BadRequest => ApiErrorView::BadRequest,
            ApiError::RequestMissingArgument(s) => ApiErrorView::RequestMissingArgument(s@),
            ApiError::Ratelimited => ApiErrorView::Ratelimited,
            ApiError::Unknown(code, message) => ApiErrorView::Unknown(*code, option_text(*message)),
            ApiError::Unauthorized => ApiErrorView::Unauthorized,
            ApiError::InvalidBirthdate => ApiErrorView::InvalidBirthdate,
            ApiError::InvalidDisplayName => ApiErrorView::InvalidDisplayName,
            ApiError::InvalidGender => ApiErrorView::InvalidGender,
            ApiError::InvalidUser => ApiErrorView::InvalidUser,
            ApiError::InvalidUserId => ApiErrorView::InvalidUserId,
            ApiError::PinIsLocked => ApiErrorView::PinIsLocked,
            ApiError::TokenValidation => ApiErrorView::TokenValidation,
            ApiError::CaptchaFailed => ApiErrorView::CaptchaFailed,
            ApiError::ChallengeRequired(c) => ApiErrorView::ChallengeRequired(c@),
            ApiError::ChallengeFailed => ApiErrorView::ChallengeFailed,
            ApiError::MalformedChallenge(e) => ApiErrorView::MalformedChallenge(*e),
            ApiError::InvalidChallengeId => ApiErrorView::InvalidChallengeId,
            ApiError::InvalidTwoStepVerificationCode => {
                ApiErrorView::InvalidTwoStepVerificationCode
            },
            ApiError::TwoStepVerificationMaintenance => {
                ApiErrorView::TwoStepVerificationMaintenance
            },
            ApiError::Multiple(errors) => ApiErrorView::Multiple(
                Seq::new(
                    errors@.len(),
                    |i: int|
                        if 0 <= i < errors@.len() {
                            errors@[i]@
                        } else {
                            ApiErrorView::Internal
                        },
                ),
            ),
            ApiError::PermissionError => ApiErrorView::PermissionError,
            ApiError::AccontLocked => ApiErrorView::AccontLocked,
            ApiError::AccountIssue => ApiErrorView::AccountIssue,
            ApiError::InvalidCredentials => ApiErrorView::InvalidCredentials,
            ApiError::UnverifiedCredentials => ApiErrorView::UnverifiedCredentials,
            ApiError::ExistingLoginSession => ApiErrorView::ExistingLoginSession,
            ApiError::DefaultLoginRequired => ApiErrorView::DefaultLoginRequired,
            ApiError::VNGAppLoginRequired => ApiErrorView::VNGAppLoginRequired,
            ApiError::LuoBuAppLoginRequired => ApiErrorView::LuoBuAppLoginRequired,
            ApiError::SocialNetworkLoginRequired => ApiErrorView::SocialNetworkLoginRequired,
            ApiError::InvalidAssetId => ApiErrorView::InvalidAssetId,
            ApiError::InvalidBrowserTrackerId => ApiErrorView::InvalidBrowserTrackerId,
            ApiError::AlreadyInGroup => ApiErrorView::AlreadyInGroup,
            ApiError::AlreadyInGroupRequests => ApiErrorView::AlreadyInGroupRequests,
            ApiError::UnsupportedSortOrder => ApiErrorView::UnsupportedSortOrder,
            ApiError::InvalidBadge => ApiErrorView::InvalidBadge,
            ApiError::ConversationCreationFailed => ApiErrorView::ConversationCreationFailed,
            ApiError::InvalidConversation => ApiErrorView::InvalidConversation,
            ApiError::ConversationUserAddFailed => ApiErrorView::ConversationUserAddFailed,
            ApiError::NotEnoughFunds(e) => ApiErrorView::NotEnoughFunds(*e),
        }
    }
}

impl Clone for ApiError {
    fn clone(&self) -> (r: Self)
        ensures
            r@ == self@,
        decreases self,
    {
        match self {
            ApiError::Internal => ApiError::Internal,
            ApiError::BadRequest => ApiError::BadRequest,
            ApiError::RequestMissingArgument(s) => ApiError::RequestMissingArgument(s.clone()),
            ApiError::Ratelimited => ApiError::Ratelimited,
            ApiError::Unknown(code, message) => match message {
                Some(s) => ApiError::Unknown(*code, Some(s.clone())),
                None => ApiError::Unknown(*code, None),
            },
            ApiError::Unauthorized => ApiError::Unauthorized,
            ApiError::InvalidBirthdate => ApiError::InvalidBirthdate,
            ApiError::InvalidDisplayName => ApiError::InvalidDisplayName,
            ApiError::InvalidGender => ApiError::InvalidGender,
            ApiError::InvalidUser => ApiError::InvalidUser,
            ApiError::InvalidUserId => ApiError::InvalidUserId,
            ApiError::PinIsLocked => ApiError::PinIsLocked,
            ApiError::TokenValidation => ApiError::TokenValidation,
            ApiError::CaptchaFailed => ApiError::CaptchaFailed,
            ApiError::ChallengeRequired(c) => ApiError::ChallengeRequired(c.clone()),
            ApiError::ChallengeFailed => ApiError::ChallengeFailed,
            ApiError::MalformedChallenge(e) => ApiError::MalformedChallenge(*e),
            ApiError::InvalidChallengeId => ApiError::InvalidChallengeId,
            ApiError::InvalidTwoStepVerificationCode => ApiError::InvalidTwoStepVerificationCode,
            ApiError::TwoStepVerificationMaintenance => ApiError::TwoStepVerificationMaintenance,
            ApiError::Multiple(errors) => {
                let mut copies: Vec<ApiError> = Vec::new();
                let mut i: usize = 0;
                while i < errors.len()
                    invariant
                        i <= errors.len(),
                        *self == ApiError::Multiple(*errors),
                        copies@.len() == i,
                        forall|k: int| 0 <= k < i ==> copies@[k]@ == errors@[k]@,
                    decreases errors.len() - i,
                {
                    assert(decreases_to!(self->Multiple_0 => errors[i as int]));
                    copies.push(errors[i].clone());
                    i = i + 1;
                }
                let r = ApiError::Multiple(copies);
                assert(r@->Multiple_0 =~= self@->Multiple_0);
                r
            },
            ApiError::PermissionError => ApiError::PermissionError,
            ApiError::AccontLocked => ApiError::AccontLocked,
            ApiError::AccountIssue => ApiError::AccountIssue,
            ApiError::InvalidCredentials => ApiError::InvalidCredentials,
            ApiError::UnverifiedCredentials => ApiError::UnverifiedCredentials,
            ApiError::ExistingLoginSession => ApiError::ExistingLoginSession,
            ApiError::DefaultLoginRequired => ApiError::DefaultLoginRequired,
            ApiError::VNGAppLoginRequired => ApiError::VNGAppLoginRequired,
            ApiError::LuoBuAppLoginRequired => ApiError::LuoBuAppLoginRequired,
            ApiError::SocialNetworkLoginRequired => ApiError::SocialNetworkLoginRequired,
            ApiError::InvalidAssetId => ApiError::InvalidAssetId,
            ApiError::InvalidBrowserTrackerId => ApiError::InvalidBrowserTrackerId,
            ApiError::AlreadyInGroup => ApiError::AlreadyInGroup,
            ApiError::AlreadyInGroupRequests => ApiError::AlreadyInGroupRequests,
            ApiError::UnsupportedSortOrder => ApiError::UnsupportedSortOrder,
            ApiError::InvalidBadge => ApiError::InvalidBadge,
            ApiError::ConversationCreationFailed => ApiError::ConversationCreationFailed,
            ApiError::InvalidConversation => ApiError::InvalidConversation,
            ApiError::ConversationUserAddFailed => ApiError::ConversationUserAddFailed,
            ApiError::NotEnoughFunds(e) => ApiError::NotEnoughFunds(*e),
        }
    }
}

impl ApiErrorView {
    /// The name of the variant.
    pub open spec fn name(self) -> Seq<char> {
        match self {
            ApiErrorView::Internal => "Internal"@,
            ApiErrorView::BadRequest => "BadRequest"@,
            ApiErrorView::RequestMissingArgument(..) => "RequestMissingArgument"@,
            ApiErrorView::Ratelimited => "Ratelimited"@,
            ApiErrorView::Unknown(..) => "Unknown"@,
            ApiErrorView::Unauthorized => "Unauthorized"@,
            ApiErrorView::InvalidBirthdate => "InvalidBirthdate"@,
            ApiErrorView::InvalidDisplayName => "InvalidDisplayName"@,
            ApiErrorView::InvalidGender => "InvalidGender"@,
            ApiErrorView::InvalidUser => "InvalidUser"@,
            ApiErrorView::InvalidUserId => "InvalidUserId"@,
            ApiErrorView::PinIsLocked => "PinIsLocked"@,
            ApiErrorView::TokenValidation => "TokenValidation"@,
            ApiErrorView::CaptchaFailed => "CaptchaFailed"@,
            ApiErrorView::ChallengeRequired(..) => "ChallengeRequired"@,
            ApiErrorView::ChallengeFailed => "ChallengeFailed"@,
            ApiErrorView::MalformedChallenge(..) => "MalformedChallenge"@,
            ApiErrorView::InvalidChallengeId => "InvalidChallengeId"@,
            ApiErrorView::InvalidTwoStepVerificationCode => "InvalidTwoStepVerificationCode"@,
            ApiErrorView::TwoStepVerificationMaintenance => "TwoStepVerificationMaintenance"@,
            ApiErrorView::Multiple(..) => "Multiple"@,
            ApiErrorView::PermissionError => "PermissionError"@,
            ApiErrorView::AccontLocked => "AccontLocked"@,
            ApiErrorView::AccountIssue => "AccountIssue"@,
            ApiErrorView::InvalidCredentials => "InvalidCredentials"@,
            ApiErrorView::UnverifiedCredentials => "UnverifiedCredentials"@,
            ApiErrorView::ExistingLoginSession => "ExistingLoginSession"@,
            ApiErrorView::DefaultLoginRequired => "DefaultLoginRequired"@,
            ApiErrorView::VNGAppLoginRequired => "VNGAppLoginRequired"@,
            ApiErrorView::LuoBuAppLoginRequired => "LuoBuAppLoginRequired"@,
            ApiErrorView::SocialNetworkLoginRequired => "SocialNetworkLoginRequired"@,
            ApiErrorView::InvalidAssetId => "InvalidAssetId"@,
            ApiErrorView::InvalidBrowserTrackerId => "InvalidBrowserTrackerId"@,
            ApiErrorView::AlreadyInGroup => "AlreadyInGroup"@,
            ApiErrorView::AlreadyInGroupRequests => "AlreadyInGroupRequests"@,
            ApiErrorView::UnsupportedSortOrder => "UnsupportedSortOrder"@,
            ApiErrorView::InvalidBadge => "InvalidBadge"@,
            ApiErrorView::ConversationCreationFailed => "ConversationCreationFailed"@,
            ApiErrorView::InvalidConversation => "InvalidConversation"@,
            ApiErrorView::ConversationUserAddFailed => "ConversationUserAddFailed"@,
            ApiErrorView::NotEnoughFunds(..) => "NotEnoughFunds"@,
        }
    }
}

impl ApiError {
    /// The name of the variant, which is how a failure is written out.
    pub fn to_string(&self) -> (r: String)
        ensures
            r@ == self@.name(),
    {
        let name = match self {
            ApiError::Internal => "Internal",
            ApiError::BadRequest => "BadRequest",
            ApiError::RequestMissingArgument(..) => "RequestMissingArgument",
            ApiError::Ratelimited => "Ratelimited",
            ApiError::Unknown(..) => "Unknown",
            ApiError::Unauthorized => "Unauthorized",
            ApiError::InvalidBirthdate => "InvalidBirthdate",
            ApiError::InvalidDisplayName => "InvalidDisplayName",
            ApiError::InvalidGender => "InvalidGender",
            ApiError::InvalidUser => "InvalidUser",
            ApiError::InvalidUserId => "InvalidUserId",
            ApiError::PinIsLocked => "PinIsLocked",
            ApiError::TokenValidation => "TokenValidation",
            ApiError::CaptchaFailed => "CaptchaFailed",
            ApiError::ChallengeRequired(..) => "ChallengeRequired",
            ApiError::ChallengeFailed => "ChallengeFailed",
            ApiError::MalformedChallenge(..) => "MalformedChallenge",
            ApiError::InvalidChallengeId => "InvalidChallengeId",
            ApiError::InvalidTwoStepVerificationCode => "InvalidTwoStepVerificationCode",
            ApiError::TwoStepVerificationMaintenance => "TwoStepVerificationMaintenance",
            ApiError::Multiple(..) => "Multiple",
            ApiError::PermissionError => "PermissionError",
            ApiError::AccontLocked => "AccontLocked",
            ApiError::AccountIssue => "AccountIssue",
            ApiError::InvalidCredentials => "InvalidCredentials",
            ApiError::UnverifiedCredentials => "UnverifiedCredentials",
            ApiError::ExistingLoginSession => "ExistingLoginSession",
            ApiError::DefaultLoginRequired => "DefaultLoginRequired",
            ApiError::VNGAppLoginRequired => "VNGAppLoginRequired",
            ApiError::LuoBuAppLoginRequired => "LuoBuAppLoginRequired",
            ApiError::SocialNetworkLoginRequired => "SocialNetworkLoginRequired",
            ApiError::InvalidAssetId => "InvalidAssetId",
            ApiError::InvalidBrowserTrackerId => "InvalidBrowserTrackerId",
            ApiError::AlreadyInGroup => "AlreadyInGroup",
            ApiError::AlreadyInGroupRequests => "AlreadyInGroupRequests",
            ApiError::UnsupportedSortOrder => "UnsupportedSortOrder",
            ApiError::InvalidBadge => "InvalidBadge",
            ApiError::ConversationCreationFailed => "ConversationCreationFailed",
            ApiError::InvalidConversation => "InvalidConversation",
            ApiError::ConversationUserAddFailed => "ConversationUserAddFailed",
            ApiError::NotEnoughFunds(..) => "NotEnoughFunds",
        };
        String::from_str(name)
    }
}

/// A failure below HTTP: no response came. The message is the transport's
/// own description of what went wrong.
#[derive(Debug, PartialEq, Eq)]
pub struct TransportError {
    pub message: String,
}

/// Everything that a call can fail with.
#[derive(Debug, PartialEq, Eq)]
pub enum Error {
    /// The server answered with a failure.
    ApiError(ApiError),
    /// No response came.
    Transport(TransportError),
    /// A challenge of this kind cannot be resolved.
    UnsupportedChallenge(ChallengeType),
    /// The answer to a challenge is too long to be sent.
    ProofTooLong,
}

/// An `Error` as a mathematical value.
pub enum ErrorView {
    ApiError(ApiErrorView),
    Transport(Seq<char>),
    UnsupportedChallenge(ChallengeType),
    ProofTooLong,
}

impl View for Error {
    type V = ErrorView;

    open spec fn view(&self) -> ErrorView {
        match self {
            Error::ApiError(e) => ErrorView::ApiError(e@),
            Error::Transport(e) => ErrorView::Transport(e.message@),
            Error::UnsupportedChallenge(kind) => ErrorView::UnsupportedChallenge(*kind),
            Error::ProofTooLong => ErrorView::ProofTooLong,
        }
    }
}

/// A day of the calendar.
#[derive(Clone, Copy, Debug, PartialEq, Eq, Structural)]
pub struct Ymd {
    pub year: i32,
    pub month: u8,
    pub day: u8,
}

/// The RFC 3339 text of midnight, UTC, on a day of the proleptic Gregorian
/// calendar; `None` where the calendar has no such day.
pub uninterp spec fn midnight_text(year: i32, month: u8, day: u8) -> Option<Seq<char>>;

/// The day, in its own time zone, of the moment that an RFC 3339 text names;
/// `None` where the text is not RFC 3339.
pub uninterp spec fn rfc3339_day(text: Seq<char>) -> Option<Ymd>;

/// Calls `TimeZone::with_ymd_and_hms` of `chrono::Utc` for midnight of the
/// day and, where that gave one moment, `DateTime::to_rfc3339` on it. The
/// result is the text named by `midnight_text`.
#[verifier::external_body]
fn rfc3339_midnight(year: i32, month: u8, day: u8) -> (r: Option<String>)
    ensures
        match r {
            Some(text) => midnight_text(year, month, day) == Some(text@),
            None => midnight_text(year, month, day) is None,
        },
{
    let (month, day) = (u32::from(month), u32::from(day));
    chrono::TimeZone::with_ymd_and_hms(&chrono::Utc, year, month, day, 0, 0, 0)
        .single()
        .map(|moment| moment.to_rfc3339())
}

/// Calls `DateTime::parse_from_rfc3339` of chrono and reads year, month and
/// day from the moment with `Datelike`. The result is the day named by
/// `rfc3339_day`; an error of the parser becomes `None`.
#[verifier::external_body]
fn parse_rfc3339(text: &str) -> (r: Option<Ymd>)
    ensures
        r == rfc3339_day(text@),
{
    chrono::DateTime::parse_from_rfc3339(text).ok().map(
        |moment|
            Ymd {
                year: chrono::Datelike::year(&moment),
                month: chrono::Datelike::month(&moment) as u8,
                day: chrono::Datelike::day(&moment) as u8,
            },
    )
}

/// A moment in time, kept as the RFC 3339 text that the server sent or that
/// `from_ymd` wrote.
#[derive(Clone, Debug, PartialEq, Eq)]
pub struct DateTime(pub String);

impl View for DateTime {
    type V = Seq<char>;

    open spec fn view(&self) -> Seq<char> {
        self.0@
    }
}

impl DateTime {
    /// Midnight, UTC, on the given day, which the calendar must have.
    pub fn from_ymd(year: i32, month: u8, day: u8) -> (r: Self)
        requires
            midnight_text(year, month, day) is Some,
        ensures
            Some(r@) == midnight_text(year, month, day),
    {
        match rfc3339_midnight(year, month, day) {
            Some(text) => DateTime(text),
            None => DateTime(String::new()),
        }
    }

    /// Midnight, UTC, on the given day; `None` where the calendar has no
    /// such day.
    pub fn try_from_ymd(year: i32, month: u8, day: u8) -> (r: Option<Self>)
        ensures
            match r {
                Some(d) => midnight_text(year, month, day) == Some(d@),
                None => midnight_text(year, month, day) is None,
            },
    {
        match rfc3339_midnight(year, month, day) {
            Some(_) => Some(DateTime::from_ymd(year, month, day)),
            None => None,
        }
    }

    /// The day of the month. The text must be RFC 3339.
    pub fn day(&self) -> (r: u8)
        requires
            rfc3339_day(self@) is Some,
        ensures
            r == rfc3339_day(self@)->0.day,
    {
        match parse_rfc3339(self.0.as_str()) {
            Some(date) => date.day,
            None => 0,
        }
    }

    /// The month of the year. The text must be RFC 3339.
    pub fn month(&self) -> (r: u8)
        requires
            rfc3339_day(self@) is Some,
        ensures
            r == rfc3339_day(self@)->0.month,
    {
        match parse_rfc3339(self.0.as_str()) {
            Some(date) => date.month,
            None => 0,
        }
    }

    /// The year. The text must be RFC 3339.
    pub fn year(&self) -> (r: i32)
        requires
            rfc3339_day(self@) is Some,
        ensures
            r == rfc3339_day(self@)->0.year,
    {
        match parse_rfc3339(self.0.as_str()) {
            Some(date) => date.year,
            None => 0,
        }
    }

    /// Year, month and day; `None` where the text is not RFC 3339.
    pub fn ymd(&self) -> (r: Option<Ymd>)
        ensures
            r == rfc3339_day(self@),
    {
        match parse_rfc3339(self.0.as_str()) {
            Some(_) => Some(Ymd { year: self.year(), month: self.month(), day: self.day() }),
            None => None,
        }
    }

    /// The text as an owned string.
    pub fn to_string(&self) -> (r: String)
        ensures
            r@ == self@,
    {
        self.0.clone()
    }
}

/// The type of an asset.
#[derive(Clone, Copy, Debug, PartialEq, Eq, Structural)]
pub enum AssetTypeId {
    Image,
    TShirt,
    Audio,
    Mesh,
    Lua,
    Hat,
    Place,
    Model,
    Shirt,
    Pants,
    Decal,
    Head,
    Face,
    Gear,
    Badge,
    Animation,
    Torso,
    RightArm,
    LeftArm,
    LeftLeg,
    RightLeg,
    Package,
    YouTubeVideo,
    Gamepass,
    Plugin,
    MeshPart,
    HairAccessory,
    FaceAccessory,
    NeckAccessory,
    ShoulderAccessory,
    FrontAccessory,
    BackAccessory,
    WaistAccessory,
    ClimbAnimation,
    DeathAnimation,
    FallAnimation,
    IdleAnimation,
    JumpAnimation,
    RunAnimation,
    SwimAnimation,
    WalkAnimation,
    PoseAnimation,
    EarAccessory,
    EyeAccessory,
    EmoteAnimation,
    Video,
    TShirtAccessory,
    ShirtAccessory,
    PantsAccessory,
    JacketAccessory,
    SweaterAccessory,
    ShortsAccessory,
    LeftShoeAccessory,
    RightShoeAccessory,
    DressSkirtAccessory,
    FontFamily,
    EyebrowAccessory,
    EyelashAccessory,
    MoodAnimation,
    DynamicHead,
}

impl AssetTypeId {
    /// The number that stands for the variant on the wire.
    pub open spec fn id_spec(self) -> u8 {
        match self {
            AssetTypeId::Image => 1,
            AssetTypeId::TShirt => 2,
            AssetTypeId::Audio => 3,
            AssetTypeId::Mesh => 4,
            AssetTypeId::Lua => 5,
            AssetTypeId::Hat => 8,
            AssetTypeId::Place => 9,
            AssetTypeId::Model => 10,
            AssetTypeId::Shirt => 11,
            AssetTypeId::Pants => 12,
            AssetTypeId::Decal => 13,
            AssetTypeId::Head => 17,
            AssetTypeId::Face => 18,
            AssetTypeId::Gear => 19,
            AssetTypeId::Badge => 21,
            AssetTypeId::Animation => 24,
            AssetTypeId::Torso => 27,
            AssetTypeId::RightArm => 28,
            AssetTypeId::LeftArm => 29,
            AssetTypeId::LeftLeg => 30,
            AssetTypeId::RightLeg => 31,
            AssetTypeId::Package => 32,
            AssetTypeId::YouTubeVideo => 33,
            AssetTypeId::Gamepass => 34,
            AssetTypeId::Plugin => 38,
            AssetTypeId::MeshPart => 40,
            AssetTypeId::HairAccessory => 41,
            AssetTypeId::FaceAccessory => 42,
            AssetTypeId::NeckAccessory => 43,
            AssetTypeId::ShoulderAccessory => 44,
            AssetTypeId::FrontAccessory => 45,
            AssetTypeId::BackAccessory => 46,
            AssetTypeId::WaistAccessory => 47,
            AssetTypeId::ClimbAnimation => 48,
            AssetTypeId::DeathAnimation => 49,
            AssetTypeId::FallAnimation => 50,
            AssetTypeId::IdleAnimation => 51,
            AssetTypeId::JumpAnimation => 52,
            AssetTypeId::RunAnimation => 53,
            AssetTypeId::SwimAnimation => 54,
            AssetTypeId::WalkAnimation => 55,
            AssetTypeId::PoseAnimation => 56,
            AssetTypeId::EarAccessory => 57,
            AssetTypeId::EyeAccessory => 58,
            AssetTypeId::EmoteAnimation => 61,
            AssetTypeId::Video => 62,
            AssetTypeId::TShirtAccessory => 64,
            AssetTypeId::ShirtAccessory => 65,
            AssetTypeId::PantsAccessory => 66,
            AssetTypeId::JacketAccessory => 67,
            AssetTypeId::SweaterAccessory => 68,
            AssetTypeId::ShortsAccessory => 69,
            AssetTypeId::LeftShoeAccessory => 70,
            AssetTypeId::RightShoeAccessory => 71,
            AssetTypeId::DressSkirtAccessory => 72,
            AssetTypeId::FontFamily => 73,
            AssetTypeId::EyebrowAccessory => 76,
            AssetTypeId::EyelashAccessory => 77,
            AssetTypeId::MoodAnimation => 78,
            AssetTypeId::DynamicHead => 79,
        }
    }

    pub fn id(self) -> (r: u8)
        ensures
            r == self.id_spec(),
    {
        match self {
            AssetTypeId::Image => 1,
            AssetTypeId::TShirt => 2,
            AssetTypeId::Audio => 3,
            AssetTypeId::Mesh => 4,
            AssetTypeId::Lua => 5,
            AssetTypeId::Hat => 8,
            AssetTypeId::Place => 9,
            AssetTypeId::Model => 10,
            AssetTypeId::Shirt => 11,
            AssetTypeId::Pants => 12,
            AssetTypeId::Decal => 13,
            AssetTypeId::Head => 17,
            AssetTypeId::Face => 18,
            AssetTypeId::Gear => 19,
            AssetTypeId::Badge => 21,
            AssetTypeId::Animation => 24,
            AssetTypeId::Torso => 27,
            AssetTypeId::RightArm => 28,
            AssetTypeId::LeftArm => 29,
            AssetTypeId::LeftLeg => 30,
            AssetTypeId::RightLeg => 31,
            AssetTypeId::Package => 32,
            AssetTypeId::YouTubeVideo => 33,
            AssetTypeId::Gamepass => 34,
            AssetTypeId::Plugin => 38,
            AssetTypeId::MeshPart => 40,
            AssetTypeId::HairAccessory => 41,
            AssetTypeId::FaceAccessory => 42,
            AssetTypeId::NeckAccessory => 43,
            AssetTypeId::ShoulderAccessory => 44,
            AssetTypeId::FrontAccessory => 45,
            AssetTypeId::BackAccessory => 46,
            AssetTypeId::WaistAccessory => 47,
            AssetTypeId::ClimbAnimation => 48,
            AssetTypeId::DeathAnimation => 49,
            AssetTypeId::FallAnimation => 50,
            AssetTypeId::IdleAnimation => 51,
            AssetTypeId::JumpAnimation => 52,
            AssetTypeId::RunAnimation => 53,
            AssetTypeId::SwimAnimation => 54,
            AssetTypeId::WalkAnimation => 55,
            AssetTypeId::PoseAnimation => 56,
            AssetTypeId::EarAccessory => 57,
            AssetTypeId::EyeAccessory => 58,
            AssetTypeId::EmoteAnimation => 61,
            AssetTypeId::Video => 62,
            AssetTypeId::TShirtAccessory => 64,
            AssetTypeId::ShirtAccessory => 65,
            AssetTypeId::PantsAccessory => 66,
            AssetTypeId::JacketAccessory => 67,
            AssetTypeId::SweaterAccessory => 68,
            AssetTypeId::ShortsAccessory => 69,
            AssetTypeId::LeftShoeAccessory => 70,
            AssetTypeId::RightShoeAccessory => 71,
            AssetTypeId::DressSkirtAccessory => 72,
            AssetTypeId::FontFamily => 73,
            AssetTypeId::EyebrowAccessory => 76,
            AssetTypeId::EyelashAccessory => 77,
            AssetTypeId::MoodAnimation => 78,
            AssetTypeId::DynamicHead => 79,
        }
    }

    /// The variant that a number stands for, if it stands for one.
    pub fn from_repr(value: u8) -> (r: Option<AssetTypeId>)
        ensures
            match r {
                Some(v) => v.id_spec() == value,
                None => forall|v: AssetTypeId| v.id_spec() != value,
            },
    {
        if value == 1 {
            Some(AssetTypeId::Image)
        } else if value == 2 {
            Some(AssetTypeId::TShirt)
        } else if value == 3 {
            Some(AssetTypeId::Audio)
        } else if value == 4 {
            Some(AssetTypeId::Mesh)
        } else if value == 5 {
            Some(AssetTypeId::Lua)
        } else if value == 8 {
            Some(AssetTypeId::Hat)
        } else if value == 9 {
            Some(AssetTypeId::Place)
        } else if value == 10 {
            Some(AssetTypeId::Model)
        } else if value == 11 {
            Some(AssetTypeId::Shirt)
        } else if value == 12 {
            Some(AssetTypeId::Pants)
        } else if value == 13 {
            Some(AssetTypeId::Decal)
        } else if value == 17 {
            Some(AssetTypeId::Head)
        } else if value == 18 {
            Some(AssetTypeId::Face)
        } else if value == 19 {
            Some(AssetTypeId::Gear)
        } else if value == 21 {
            Some(AssetTypeId::Badge)
        } else if value == 24 {
            Some(AssetTypeId::Animation)
        } else if value == 27 {
            Some(AssetTypeId::Torso)
        } else if value == 28 {
            Some(AssetTypeId::RightArm)
        } else if value == 29 {
            Some(AssetTypeId::LeftArm)
        } else if value == 30 {
            Some(AssetTypeId::LeftLeg)
        } else if value == 31 {
            Some(AssetTypeId::RightLeg)
        } else if value == 32 {
            Some(AssetTypeId::Package)
        } else if value == 33 {
            Some(AssetTypeId::YouTubeVideo)
        } else if value == 34 {
            Some(AssetTypeId::Gamepass)
        } else if value == 38 {
            Some(AssetTypeId::Plugin)
        } else if value == 40 {
            Some(AssetTypeId::MeshPart)
        } else if value == 41 {
            Some(AssetTypeId::HairAccessory)
        } else if value == 42 {
            Some(AssetTypeId::FaceAccessory)
        } else if value == 43 {
            Some(AssetTypeId::NeckAccessory)
        } else if value == 44 {
            Some(AssetTypeId::ShoulderAccessory)
        } else if value == 45 {
            Some(AssetTypeId::FrontAccessory)
        } else if value == 46 {
            Some(AssetTypeId::BackAccessory)
        } else if value == 47 {
            Some(AssetTypeId::WaistAccessory)
        } else if value == 48 {
            Some(AssetTypeId::ClimbAnimation)
        } else if value == 49 {
            Some(AssetTypeId::DeathAnimation)
        } else if value == 50 {
            Some(AssetTypeId::FallAnimation)
        } else if value == 51 {
            Some(AssetTypeId::IdleAnimation)
        } else if value == 52 {
            Some(AssetTypeId::JumpAnimation)
        } else if value == 53 {
            Some(AssetTypeId::RunAnimation)
        } else if value == 54 {
            Some(AssetTypeId::SwimAnimation)
        } else if value == 55 {
            Some(AssetTypeId::WalkAnimation)
        } else if value == 56 {
            Some(AssetTypeId::PoseAnimation)
        } else if value == 57 {
            Some(AssetTypeId::EarAccessory)
        } else if value == 58 {
            Some(AssetTypeId::EyeAccessory)
        } else if value == 61 {
            Some(AssetTypeId::EmoteAnimation)
        } else if value == 62 {
            Some(AssetTypeId::Video)
        } else if value == 64 {
            Some(AssetTypeId::TShirtAccessory)
        } else if value == 65 {
            Some(AssetTypeId::ShirtAccessory)
        } else if value == 66 {
            Some(AssetTypeId::PantsAccessory)
        } else if value == 67 {
            Some(AssetTypeId::JacketAccessory)
        } else if value == 68 {
            Some(AssetTypeId::SweaterAccessory)
        } else if value == 69 {
            Some(AssetTypeId::ShortsAccessory)
        } else if value == 70 {
            Some(AssetTypeId::LeftShoeAccessory)
        } else if value == 71 {
            Some(AssetTypeId::RightShoeAccessory)
        } else if value == 72 {
            Some(AssetTypeId::DressSkirtAccessory)
        } else if value == 73 {
            Some(AssetTypeId::FontFamily)
        } else if value == 76 {
            Some(AssetTypeId::EyebrowAccessory)
        } else if value == 77 {
            Some(AssetTypeId::EyelashAccessory)
        } else if value == 78 {
            Some(AssetTypeId::MoodAnimation)
        } else if value == 79 {
            Some(AssetTypeId::DynamicHead)
        } else {
            None
        }
    }
}

/// The money that an item is paid with.
#[derive(Clone, Copy, Debug, PartialEq, Eq, Structural)]
pub enum Currency {
    Robux,
    Tickets,
}

impl Default for Currency {
    fn default() -> (r: Self)
        ensures
            r == Currency::Robux,
    {
        Currency::Robux
    }
}

impl Currency {
    /// The number that stands for the variant on the wire.
    pub open spec fn id_spec(self) -> u8 {
        match self {
            Currency::Robux => 1,
            Currency::Tickets => 2,
        }
    }

    pub fn id(self) -> (r: u8)
        ensures
            r == self.id_spec(),
    {
        match self {
            Currency::Robux => 1,
            Currency::Tickets => 2,
        }
    }

    /// The variant that a number stands for, if it stands for one.
    pub fn from_repr(value: u8) -> (r: Option<Currency>)
        ensures
            match r {
                Some(v) => v.id_spec() == value,
                None => forall|v: Currency| v.id_spec() != value,
            },
    {
        if value == 1 {
            Some(Currency::Robux)
        } else if value == 2 {
            Some(Currency::Tickets)
        } else {
            None
        }
    }
}

impl AssetTypeId {
    /// The variant's name, as it is written on the wire.
    pub open spec fn name_spec(self) -> Seq<char> {
        match self {
            AssetTypeId::Image => "Image"@,
            AssetTypeId::TShirt => "TShirt"@,
            AssetTypeId::Audio => "Audio"@,
            AssetTypeId::Mesh => "Mesh"@,
            AssetTypeId::Lua => "Lua"@,
            AssetTypeId::Hat => "Hat"@,
            AssetTypeId::Place => "Place"@,
            AssetTypeId::Model => "Model"@,
            AssetTypeId::Shirt => "Shirt"@,
            AssetTypeId::Pants => "Pants"@,
            AssetTypeId::Decal => "Decal"@,
            AssetTypeId::Head => "Head"@,
            AssetTypeId::Face => "Face"@,
            AssetTypeId::Gear => "Gear"@,
            AssetTypeId::Badge => "Badge"@,
            AssetTypeId::Animation => "Animation"@,
            AssetTypeId::Torso => "Torso"@,
            AssetTypeId::RightArm => "RightArm"@,
            AssetTypeId::LeftArm => "LeftArm"@,
            AssetTypeId::LeftLeg => "LeftLeg"@,
            AssetTypeId::RightLeg => "RightLeg"@,
            AssetTypeId::Package => "Package"@,
            AssetTypeId::YouTubeVideo => "YouTubeVideo"@,
            AssetTypeId::Gamepass => "Gamepass"@,
            AssetTypeId::Plugin => "Plugin"@,
            AssetTypeId::MeshPart => "MeshPart"@,
            AssetTypeId::HairAccessory => "HairAccessory"@,
            AssetTypeId::FaceAccessory => "FaceAccessory"@,
            AssetTypeId::NeckAccessory => "NeckAccessory"@,
            AssetTypeId::ShoulderAccessory => "ShoulderAccessory"@,
            AssetTypeId::FrontAccessory => "FrontAccessory"@,
            AssetTypeId::BackAccessory => "BackAccessory"@,
            AssetTypeId::WaistAccessory => "WaistAccessory"@,
            AssetTypeId::ClimbAnimation => "ClimbAnimation"@,
            AssetTypeId::DeathAnimation => "DeathAnimation"@,
            AssetTypeId::FallAnimation => "FallAnimation"@,
            AssetTypeId::IdleAnimation => "IdleAnimation"@,
            AssetTypeId::JumpAnimation => "JumpAnimation"@,
            AssetTypeId::RunAnimation => "RunAnimation"@,
            AssetTypeId::SwimAnimation => "SwimAnimation"@,
            AssetTypeId::WalkAnimation => "WalkAnimation"@,
            AssetTypeId::PoseAnimation => "PoseAnimation"@,
            AssetTypeId::EarAccessory => "EarAccessory"@,
            AssetTypeId::EyeAccessory => "EyeAccessory"@,
            AssetTypeId::EmoteAnimation => "EmoteAnimation"@,
            AssetTypeId::Video => "Video"@,
            AssetTypeId::TShirtAccessory => "TShirtAccessory"@,
            AssetTypeId::ShirtAccessory => "ShirtAccessory"@,
            AssetTypeId::PantsAccessory => "PantsAccessory"@,
            AssetTypeId::JacketAccessory => "JacketAccessory"@,
            AssetTypeId::SweaterAccessory => "SweaterAccessory"@,
            AssetTypeId::ShortsAccessory => "ShortsAccessory"@,
            AssetTypeId::LeftShoeAccessory => "LeftShoeAccessory"@,
            AssetTypeId::RightShoeAccessory => "RightShoeAccessory"@,
            AssetTypeId::DressSkirtAccessory => "DressSkirtAccessory"@,
            AssetTypeId::FontFamily => "FontFamily"@,
            AssetTypeId::EyebrowAccessory => "EyebrowAccessory"@,
            AssetTypeId::EyelashAccessory => "EyelashAccessory"@,
            AssetTypeId::MoodAnimation => "MoodAnimation"@,
            AssetTypeId::DynamicHead => "DynamicHead"@,
        }
    }

    pub fn name(self) -> (r: &'static str)
        ensures
            r@ == self.name_spec(),
    {
        match self {
            AssetTypeId::Image => "Image",
            AssetTypeId::TShirt => "TShirt",
            AssetTypeId::Audio => "Audio",
            AssetTypeId::Mesh => "Mesh",
            AssetTypeId::Lua => "Lua",
            AssetTypeId::Hat => "Hat",
            AssetTypeId::Place => "Place",
            AssetTypeId::Model => "Model",
            AssetTypeId::Shirt => "Shirt",
            AssetTypeId::Pants => "Pants",
            AssetTypeId::Decal => "Decal",
            AssetTypeId::Head => "Head",
            AssetTypeId::Face => "Face",
            AssetTypeId::Gear => "Gear",
            AssetTypeId::Badge => "Badge",
            AssetTypeId::Animation => "Animation",
            AssetTypeId::Torso => "Torso",
            AssetTypeId::RightArm => "RightArm",
            AssetTypeId::LeftArm => "LeftArm",
            AssetTypeId::LeftLeg => "LeftLeg",
            AssetTypeId::RightLeg => "RightLeg",
            AssetTypeId::Package => "Package",
            AssetTypeId::YouTubeVideo => "YouTubeVideo",
            AssetTypeId::Gamepass => "Gamepass",
            AssetTypeId::Plugin => "Plugin",
            AssetTypeId::MeshPart => "MeshPart",
            AssetTypeId::HairAccessory => "HairAccessory",
            AssetTypeId::FaceAccessory => "FaceAccessory",
            AssetTypeId::NeckAccessory => "NeckAccessory",
            AssetTypeId::ShoulderAccessory => "ShoulderAccessory",
            AssetTypeId::FrontAccessory => "FrontAccessory",
            AssetTypeId::BackAccessory => "BackAccessory",
            AssetTypeId::WaistAccessory => "WaistAccessory",
            AssetTypeId::ClimbAnimation => "ClimbAnimation",
            AssetTypeId::DeathAnimation => "DeathAnimation",
            AssetTypeId::FallAnimation => "FallAnimation",
            AssetTypeId::IdleAnimation => "IdleAnimation",
            AssetTypeId::JumpAnimation => "JumpAnimation",
            AssetTypeId::RunAnimation => "RunAnimation",
            AssetTypeId::SwimAnimation => "SwimAnimation",
            AssetTypeId::WalkAnimation => "WalkAnimation",
            AssetTypeId::PoseAnimation => "PoseAnimation",
            AssetTypeId::EarAccessory => "EarAccessory",
            AssetTypeId::EyeAccessory => "EyeAccessory",
            AssetTypeId::EmoteAnimation => "EmoteAnimation",
            AssetTypeId::Video => "Video",
            AssetTypeId::TShirtAccessory => "TShirtAccessory",
            AssetTypeId::ShirtAccessory => "ShirtAccessory",
            AssetTypeId::PantsAccessory => "PantsAccessory",
            AssetTypeId::JacketAccessory => "JacketAccessory",
            AssetTypeId::SweaterAccessory => "SweaterAccessory",
            AssetTypeId::ShortsAccessory => "ShortsAccessory",
            AssetTypeId::LeftShoeAccessory => "LeftShoeAccessory",
            AssetTypeId::RightShoeAccessory => "RightShoeAccessory",
            AssetTypeId::DressSkirtAccessory => "DressSkirtAccessory",
            AssetTypeId::FontFamily => "FontFamily",
            AssetTypeId::EyebrowAccessory => "EyebrowAccessory",
            AssetTypeId::EyelashAccessory => "EyelashAccessory",
            AssetTypeId::MoodAnimation => "MoodAnimation",
            AssetTypeId::DynamicHead => "DynamicHead",
        }
    }
}

impl Currency {
    /// The variant's name, as it is written on the wire.
    pub open spec fn name_spec(self) -> Seq<char> {
        match self {
            Currency::Robux => "Robux"@,
            Currency::Tickets => "Tickets"@,
        }
    }

    pub fn name(self) -> (r: &'static str)
        ensures
            r@ == self.name_spec(),
    {
        match self {
            Currency::Robux => "Robux",
            Currency::Tickets => "Tickets",
        }
    }
}

/// Direction in which a paged listing is walked.
#[derive(Clone, Copy, Debug, PartialEq, Eq, Structural)]
pub enum SortOrder {
    Ascending,
    Descending,
}

impl Default for SortOrder {
    fn default() -> (r: Self)
        ensures
            r == SortOrder::Ascending,
    {
        SortOrder::Ascending
    }
}

impl SortOrder {
    /// The variant's name, which is what a query string carries.
    pub open spec fn name_spec(self) -> Seq<char> {
        match self {
            SortOrder::Ascending => "Ascending"@,
            SortOrder::Descending => "Descending"@,
        }
    }

    pub fn name(self) -> (r: &'static str)
        ensures
            r@ == self.name_spec(),
    {
        match self {
            SortOrder::Ascending => "Ascending",
            SortOrder::Descending => "Descending",
        }
    }
}

/// Where in a listing a request starts, how many entries it asks for, and in
/// which order.
#[derive(Clone, Copy, Debug, PartialEq, Eq)]
pub struct Paging<'a> {
    pub cursor: Option<&'a str>,
    pub limit: Option<u16>,
    pub order: Option<SortOrder>,
}

impl<'a> Default for Paging<'a> {
    fn default() -> (r: Self)
        ensures
            r.cursor is None,
            r.limit == Some(10u16),
            r.order == Some(SortOrder::Ascending),
    {
        Paging { cursor: None, limit: Some(10), order: Some(SortOrder::Ascending) }
    }
}

impl<'a> Paging<'a> {
    pub fn new(cursor: Option<&'a str>, limit: Option<u16>, order: Option<SortOrder>) -> (r: Paging<
        'a,
    >)
        ensures
            r.cursor == cursor,
            r.limit == limit,
            r.order == order,
    {
        Paging { cursor, limit, order }
    }
}

} // verus!
