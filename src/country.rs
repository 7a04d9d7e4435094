//! Country calling codes, how they were found, and region identifiers.

use vstd::prelude::*;

verus! {

/// A country calling code and the way it was found.
#[derive(Copy, Clone, Eq, PartialEq, Structural, Hash, Debug)]
pub struct Code {
    /// The country code value.
    pub value: u16,
    /// The source from which the country code is derived.
    pub source: Source,
}

/// How the country code of a number was found.
#[derive(Eq, PartialEq, Structural, Copy, Clone, Hash, Debug)]
pub enum Source {
    /// From a leading "+", as in "+33 1 42 68 53 00".
    Plus,
    /// From a leading international dialing prefix, as in "011 33 1 42 68 53 00"
    /// dialled from the US.
    Idd,
    /// From the digits of the number without "+" or prefix, as in
    /// "33 1 42 68 53 00" with France as the default region.
    Number,
    /// From the default region given to the parser, not from the number itself.
    Default,
}

impl Default for Source {
    fn default() -> (r: Self)
        ensures
            r == Source::Default,
    {
        Source::Default
    }
}

impl Code {
    pub fn new(value: u16, source: Source) -> (r: Code)
        ensures
            r.value == value,
            r.source == source,
    {
        Code { value, source }
    }

    /// The country code number.
    pub fn value(&self) -> (r: u16)
        ensures
            r == self.value,
    {
        self.value
    }

    /// How the country code was inferred.
    pub fn source(&self) -> (r: Source)
        ensures
            r == self.source,
    {
        self.source
    }
}

/// A region identifier (CLDR).
#[derive(Eq, PartialEq, Structural, Copy, Clone, Hash, Debug)]
pub enum Id {
    AC,
    AD,
    AE,
    AF,
    AG,
    AI,
    AL,
    AM,
    AO,
    AR,
    AS,
    AT,
    AU,
    AW,
    AX,
    AZ,
    BA,
    BB,
    BD,
    BE,
    BF,
    BG,
    BH,
    BI,
    BJ,
    BL,
    BM,
    BN,
    BO,
    BQ,
    BR,
    BS,
    BT,
    BW,
    BY,
    BZ,
    CA,
    CC,
    CD,
    CF,
    CG,
    CH,
    CI,
    CK,
    CL,
    CM,
    CN,
    CO,
    CR,
    CU,
    CV,
    CW,
    CX,
    CY,
    CZ,
    DE,
    DJ,
    DK,
    DM,
    DO,
    DZ,
    EC,
    EE,
    EG,
    EH,
    ER,
    ES,
    ET,
    FI,
    FJ,
    FK,
    FM,
    FO,
    FR,
    GA,
    GB,
    GD,
    GE,
    GF,
    GG,
    GH,
    GI,
    GL,
    GM,
    GN,
    GP,
    GQ,
    GR,
    GT,
    GU,
    GW,
    GY,
    HK,
    HN,
    HR,
    HT,
    HU,
    ID,
    IE,
    IL,
    IM,
    IN,
    IO,
    IQ,
    IR,
    IS,
    IT,
    JE,
    JM,
    JO,
    JP,
    KE,
    KG,
    KH,
    KI,
    KM,
    KN,
    KP,
    KR,
    KW,
    KY,
    KZ,
    LA,
    LB,
    LC,
    LI,
    LK,
    LR,
    LS,
    LT,
    LU,
    LV,
    LY,
    MA,
    MC,
    MD,
    ME,
    MF,
    MG,
    MH,
    MK,
    ML,
    MM,
    MN,
    MO,
    MP,
    MQ,
    MR,
    MS,
    MT,
    MU,
    MV,
    MW,
    MX,
    MY,
    MZ,
    NA,
    NC,
    NE,
    NF,
    NG,
    NI,
    NL,
    NO,
    NP,
    NR,
    NU,
    NZ,
    OM,
    PA,
    PE,
    PF,
    PG,
    PH,
    PK,
    PL,
    PM,
    PR,
    PS,
    PT,
    PW,
    PY,
    QA,
    RE,
    RO,
    RS,
    RU,
    RW,
    SA,
    SB,
    SC,
    SD,
    SE,
    SG,
    SH,
    SI,
    SJ,
    SK,
    SL,
    SM,
    SN,
    SO,
    SR,
    SS,
    ST,
    SV,
    SX,
    SY,
    SZ,
    TA,
    TC,
    TD,
    TG,
    TH,
    TJ,
    TK,
    TL,
    TM,
    TN,
    TO,
    TR,
    TT,
    TV,
    TW,
    TZ,
    UA,
    UG,
    US,
    UY,
    UZ,
    VA,
    VC,
    VE,
    VG,
    VI,
    VN,
    VU,
    WF,
    WS,
    XK,
    YE,
    YT,
    ZA,
    ZM,
    ZW,
}

impl Id {
    /// The two letters of the identifier.
    pub open spec fn text(self) -> Seq<char> {
        match self {
            Id::AC => "AC"@,
            Id::AD => "AD"@,
            Id::AE => "AE"@,
            Id::AF => "AF"@,
            Id::AG => "AG"@,
            Id::AI => "AI"@,
            Id::AL => "AL"@,
            Id::AM => "AM"@,
            Id::AO => "AO"@,
            Id::AR => "AR"@,
            Id::AS => "AS"@,
            Id::AT => "AT"@,
            Id::AU => "AU"@,
            Id::AW => "AW"@,
            Id::AX => "AX"@,
            Id::AZ => "AZ"@,
            Id::BA => "BA"@,
            Id::BB => "BB"@,
            Id::BD => "BD"@,
            Id::BE => "BE"@,
            Id::BF => "BF"@,
            Id::BG => "BG"@,
            Id::BH => "BH"@,
            Id::BI => "BI"@,
            Id::BJ => "BJ"@,
            Id::BL => "BL"@,
            Id::BM => "BM"@,
            Id::BN => "BN"@,
            Id::BO => "BO"@,
            Id::BQ => "BQ"@,
            Id::BR => "BR"@,
            Id::BS => "BS"@,
            Id::BT => "BT"@,
            Id::BW => "BW"@,
            Id::BY => "BY"@,
            Id::BZ => "BZ"@,
            Id::CA => "CA"@,
            Id::CC => "CC"@,
            Id::CD => "CD"@,
            Id::CF => "CF"@,
            Id::CG => "CG"@,
            Id::CH => "CH"@,
            Id::CI => "CI"@,
            Id::CK => "CK"@,
            Id::CL => "CL"@,
            Id::CM => "CM"@,
            Id::CN => "CN"@,
            Id::CO => "CO"@,
            Id::CR => "CR"@,
            Id::CU => "CU"@,
            Id::CV => "CV"@,
            Id::CW => "CW"@,
            Id::CX => "CX"@,
            Id::CY => "CY"@,
            Id::CZ => "CZ"@,
            Id::DE => "DE"@,
            Id::DJ => "DJ"@,
            Id::DK => "DK"@,
            Id::DM => "DM"@,
            Id::DO => "DO"@,
            Id::DZ => "DZ"@,
            Id::EC => "EC"@,
            Id::EE => "EE"@,
            Id::EG => "EG"@,
            Id::EH => "EH"@,
            Id::ER => "ER"@,
            Id::ES => "ES"@,
            Id::ET => "ET"@,
            Id::FI => "FI"@,
            Id::FJ => "FJ"@,
            Id::FK => "FK"@,
            Id::FM => "FM"@,
            Id::FO => "FO"@,
            Id::FR => "FR"@,
            Id::GA => "GA"@,
            Id::GB => "GB"@,
            Id::GD => "GD"@,
            Id::GE => "GE"@,
            Id::GF => "GF"@,
            Id::GG => "GG"@,
            Id::GH => "GH"@,
            Id::GI => "GI"@,
            Id::GL => "GL"@,
            Id::GM => "GM"@,
            Id::GN => "GN"@,
            Id::GP => "GP"@,
            Id::GQ => "GQ"@,
            Id::GR => "GR"@,
            Id::GT => "GT"@,
            Id::GU => "GU"@,
            Id::GW => "GW"@,
            Id::GY => "GY"@,
            Id::HK => "HK"@,
            Id::HN => "HN"@,
            Id::HR => "HR"@,
            Id::HT => "HT"@,
            Id::HU => "HU"@,
            Id::ID => "ID"@,
            Id::IE => "IE"@,
            Id::IL => "IL"@,
            Id::IM => "IM"@,
            Id::IN => "IN"@,
            Id::IO => "IO"@,
            Id::IQ => "IQ"@,
            Id::IR => "IR"@,
            Id::IS => "IS"@,
            Id::IT => "IT"@,
            Id::JE => "JE"@,
            Id::JM => "JM"@,
            Id::JO => "JO"@,
            Id::JP => "JP"@,
            Id::KE => "KE"@,
            Id::KG => "KG"@,
            Id::KH => "KH"@,
            Id::KI => "KI"@,
            Id::KM => "KM"@,
            Id::KN => "KN"@,
            Id::KP => "KP"@,
            Id::KR => "KR"@,
            Id::KW => "KW"@,
            Id::KY => "KY"@,
            Id::KZ => "KZ"@,
            Id::LA => "LA"@,
            Id::LB => "LB"@,
            Id::LC => "LC"@,
            Id::LI => "LI"@,
            Id::LK => "LK"@,
            Id::LR => "LR"@,
            Id::LS => "LS"@,
            Id::LT => "LT"@,
            Id::LU => "LU"@,
            Id::LV => "LV"@,
            Id::LY => "LY"@,
            Id::MA => "MA"@,
            Id::MC => "MC"@,
            Id::MD => "MD"@,
            Id::ME => "ME"@,
            Id::MF => "MF"@,
            Id::MG => "MG"@,
            Id::MH => "MH"@,
            Id::MK => "MK"@,
            Id::ML => "ML"@,
            Id::MM => "MM"@,
            Id::MN => "MN"@,
            Id::MO => "MO"@,
            Id::MP => "MP"@,
            Id::MQ => "MQ"@,
            Id::MR => "MR"@,
            Id::MS => "MS"@,
            Id::MT => "MT"@,
            Id::MU => "MU"@,
            Id::MV => "MV"@,
            Id::MW => "MW"@,
            Id::MX => "MX"@,
            Id::MY => "MY"@,
            Id::MZ => "MZ"@,
            Id::NA => "NA"@,
            Id::NC => "NC"@,
            Id::NE => "NE"@,
            Id::NF => "NF"@,
            Id::NG => "NG"@,
            Id::NI => "NI"@,
            Id::NL => "NL"@,
            Id::NO => "NO"@,
            Id::NP => "NP"@,
            Id::NR => "NR"@,
            Id::NU => "NU"@,
            Id::NZ => "NZ"@,
            Id::OM => "OM"@,
            Id::PA => "PA"@,
            Id::PE => "PE"@,
            Id::PF => "PF"@,
            Id::PG => "PG"@,
            Id::PH => "PH"@,
            Id::PK => "PK"@,
            Id::PL => "PL"@,
            Id::PM => "PM"@,
            Id::PR => "PR"@,
            Id::PS => "PS"@,
            Id::PT => "PT"@,
            Id::PW => "PW"@,
            Id::PY => "PY"@,
            Id::QA => "QA"@,
            Id::RE => "RE"@,
            Id::RO => "RO"@,
            Id::RS => "RS"@,
            Id::RU => "RU"@,
            Id::RW => "RW"@,
            Id::SA => "SA"@,
            Id::SB => "SB"@,
            Id::SC => "SC"@,
            Id::SD => "SD"@,
            Id::SE => "SE"@,
            Id::SG => "SG"@,
            Id::SH => "SH"@,
            Id::SI => "SI"@,
            Id::SJ => "SJ"@,
            Id::SK => "SK"@,
            Id::SL => "SL"@,
            Id::SM => "SM"@,
            Id::SN => "SN"@,
            Id::SO => "SO"@,
            Id::SR => "SR"@,
            Id::SS => "SS"@,
            Id::ST => "ST"@,
            Id::SV => "SV"@,
            Id::SX => "SX"@,
            Id::SY => "SY"@,
            Id::SZ => "SZ"@,
            Id::TA => "TA"@,
            Id::TC => "TC"@,
            Id::TD => "TD"@,
            Id::TG => "TG"@,
            Id::TH => "TH"@,
            Id::TJ => "TJ"@,
            Id::TK => "TK"@,
            Id::TL => "TL"@,
            Id::TM => "TM"@,
            Id::TN => "TN"@,
            Id::TO => "TO"@,
            Id::TR => "TR"@,
            Id::TT => "TT"@,
            Id::TV => "TV"@,
            Id::TW => "TW"@,
            Id::TZ => "TZ"@,
            Id::UA => "UA"@,
            Id::UG => "UG"@,
            Id::US => "US"@,
            Id::UY => "UY"@,
            Id::UZ => "UZ"@,
            Id::VA => "VA"@,
            Id::VC => "VC"@,
            Id::VE => "VE"@,
            Id::VG => "VG"@,
            Id::VI => "VI"@,
            Id::VN => "VN"@,
            Id::VU => "VU"@,
            Id::WF => "WF"@,
            Id::WS => "WS"@,
            Id::XK => "XK"@,
            Id::YE => "YE"@,
            Id::YT => "YT"@,
            Id::ZA => "ZA"@,
            Id::ZM => "ZM"@,
            Id::ZW => "ZW"@,
        }
    }

    /// The two letters of the identifier.
    pub fn as_str(&self) -> (r: &'static str)
        ensures
            r@ == self.text(),
    {
        match self {
            Id::AC => "AC",
            Id::AD => "AD",
            Id::AE => "AE",
            Id::AF => "AF",
            Id::AG => "AG",
            Id::AI => "AI",
            Id::AL => "AL",
            Id::AM => "AM",
            Id::AO => "AO",
            Id::AR => "AR",
            Id::AS => "AS",
            Id::AT => "AT",
            Id::AU => "AU",
            Id::AW => "AW",
            Id::AX => "AX",
            Id::AZ => "AZ",
            Id::BA => "BA",
            Id::BB => "BB",
            Id::BD => "BD",
            Id::BE => "BE",
            Id::BF => "BF",
            Id::BG => "BG",
            Id::BH => "BH",
            Id::BI => "BI",
            Id::BJ => "BJ",
            Id::BL => "BL",
            Id::BM => "BM",
            Id::BN => "BN",
            Id::BO => "BO",
            Id::BQ => "BQ",
            Id::BR => "BR",
            Id::BS => "BS",
            Id::BT => "BT",
            Id::BW => "BW",
            Id::BY => "BY",
            Id::BZ => "BZ",
            Id::CA => "CA",
            Id::CC => "CC",
            Id::CD => "CD",
            Id::CF => "CF",
            Id::CG => "CG",
            Id::CH => "CH",
            Id::CI => "CI",
            Id::CK => "CK",
            Id::CL => "CL",
            Id::CM => "CM",
            Id::CN => "CN",
            Id::CO => "CO",
            Id::CR => "CR",
            Id::CU => "CU",
            Id::CV => "CV",
            Id::CW => "CW",
            Id::CX => "CX",
            Id::CY => "CY",
            Id::CZ => "CZ",
            Id::DE => "DE",
            Id::DJ => "DJ",
            Id::DK => "DK",
            Id::DM => "DM",
            Id::DO => "DO",
            Id::DZ => "DZ",
            Id::EC => "EC",
            Id::EE => "EE",
            Id::EG => "EG",
            Id::EH => "EH",
            Id::ER => "ER",
            Id::ES => "ES",
            Id::ET => "ET",
            Id::FI => "FI",
            Id::FJ => "FJ",
            Id::FK => "FK",
            Id::FM => "FM",
            Id::FO => "FO",
            Id::FR => "FR",
            Id::GA => "GA",
            Id::GB => "GB",
            Id::GD => "GD",
            Id::GE => "GE",
            Id::GF => "GF",
            Id::GG => "GG",
            Id::GH => "GH",
            Id::GI => "GI",
            Id::GL => "GL",
            Id::GM => "GM",
            Id::GN => "GN",
            Id::GP => "GP",
            Id::GQ => "GQ",
            Id::GR => "GR",
            Id::GT => "GT",
            Id::GU => "GU",
            Id::GW => "GW",
            Id::GY => "GY",
            Id::HK => "HK",
            Id::HN => "HN",
            Id::HR => "HR",
            Id::HT => "HT",
            Id::HU => "HU",
            Id::ID => "ID",
            Id::IE => "IE",
            Id::IL => "IL",
            Id::IM => "IM",
            Id::IN => "IN",
            Id::IO => "IO",
            Id::IQ => "IQ",
            Id::IR => "IR",
            Id::IS => "IS",
            Id::IT => "IT",
            Id::JE => "JE",
            Id::JM => "JM",
            Id::JO => "JO",
            Id::JP => "JP",
            Id::KE => "KE",
            Id::KG => "KG",
            Id::KH => "KH",
            Id::KI => "KI",
            Id::KM => "KM",
            Id::KN => "KN",
            Id::KP => "KP",
            Id::KR => "KR",
            Id::KW => "KW",
            Id::KY => "KY",
            Id::KZ => "KZ",
            Id::LA => "LA",
            Id::LB => "LB",
            Id::LC => "LC",
            Id::LI => "LI",
            Id::LK => "LK",
            Id::LR => "LR",
            Id::LS => "LS",
            Id::LT => "LT",
            Id::LU => "LU",
            Id::LV => "LV",
            Id::LY => "LY",
            Id::MA => "MA",
            Id::MC => "MC",
            Id::MD => "MD",
            Id::ME => "ME",
            Id::MF => "MF",
            Id::MG => "MG",
            Id::MH => "MH",
            Id::MK => "MK",
            Id::ML => "ML",
            Id::MM => "MM",
            Id::MN => "MN",
            Id::MO => "MO",
            Id::MP => "MP",
            Id::MQ => "MQ",
            Id::MR => "MR",
            Id::MS => "MS",
            Id::MT => "MT",
            Id::MU => "MU",
            Id::MV => "MV",
            Id::MW => "MW",
            Id::MX => "MX",
            Id::MY => "MY",
            Id::MZ => "MZ",
            Id::NA => "NA",
            Id::NC => "NC",
            Id::NE => "NE",
            Id::NF => "NF",
            Id::NG => "NG",
            Id::NI => "NI",
            Id::NL => "NL",
            Id::NO => "NO",
            Id::NP => "NP",
            Id::NR => "NR",
            Id::NU => "NU",
            Id::NZ => "NZ",
            Id::OM => "OM",
            Id::PA => "PA",
            Id::PE => "PE",
            Id::PF => "PF",
            Id::PG => "PG",
            Id::PH => "PH",
            Id::PK => "PK",
            Id::PL => "PL",
            Id::PM => "PM",
            Id::PR => "PR",
            Id::PS => "PS",
            Id::PT => "PT",
            Id::PW => "PW",
            Id::PY => "PY",
            Id::QA => "QA",
            Id::RE => "RE",
            Id::RO => "RO",
            Id::RS => "RS",
            Id::RU => "RU",
            Id::RW => "RW",
            Id::SA => "SA",
            Id::SB => "SB",
            Id::SC => "SC",
            Id::SD => "SD",
            Id::SE => "SE",
            Id::SG => "SG",
            Id::SH => "SH",
            Id::SI => "SI",
            Id::SJ => "SJ",
            Id::SK => "SK",
            Id::SL => "SL",
            Id::SM => "SM",
            Id::SN => "SN",
            Id::SO => "SO",
            Id::SR => "SR",
            Id::SS => "SS",
            Id::ST => "ST",
            Id::SV => "SV",
            Id::SX => "SX",
            Id::SY => "SY",
            Id::SZ => "SZ",
            Id::TA => "TA",
            Id::TC => "TC",
            Id::TD => "TD",
            Id::TG => "TG",
            Id::TH => "TH",
            Id::TJ => "TJ",
            Id::TK => "TK",
            Id::TL => "TL",
            Id::TM => "TM",
            Id::TN => "TN",
            Id::TO => "TO",
            Id::TR => "TR",
            Id::TT => "TT",
            Id::TV => "TV",
            Id::TW => "TW",
            Id::TZ => "TZ",
            Id::UA => "UA",
            Id::UG => "UG",
            Id::US => "US",
            Id::UY => "UY",
            Id::UZ => "UZ",
            Id::VA => "VA",
            Id::VC => "VC",
            Id::VE => "VE",
            Id::VG => "VG",
            Id::VI => "VI",
            Id::VN => "VN",
            Id::VU => "VU",
            Id::WF => "WF",
            Id::WS => "WS",
            Id::XK => "XK",
            Id::YE => "YE",
            Id::YT => "YT",
            Id::ZA => "ZA",
            Id::ZM => "ZM",
            Id::ZW => "ZW",
        }
    }
}

} // verus!
