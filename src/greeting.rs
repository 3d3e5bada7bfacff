use vstd::prelude::*;

use chrono::Timelike;

use crate::text::{push_str, same_text};

verus! {

/// The earliest Unix time handled: the start of year 1.
pub const EARLIEST_UNIX_SECS: i64 = -62_135_596_800;

/// The latest Unix time handled: the end of year 9999.
pub const LATEST_UNIX_SECS: i64 = 253_402_300_799;

/// The offset of Bogota from UTC, in seconds (UTC-5).
pub const BOGOTA_OFFSET_SECS: i32 = -18_000;

/// Relies on chrono: `DateTime::from_timestamp`, `FixedOffset::east_opt`,
/// `with_timezone` and `hour` give the hour of day of a Unix time at a fixed
/// offset from UTC. Within these bounds neither constructor returns `None`.
#[verifier::external_body]
fn hour_at_offset(unix_secs: i64, offset_secs: i32) -> (r: u32)
    requires
        EARLIEST_UNIX_SECS <= unix_secs <= LATEST_UNIX_SECS,
        -86_400 < offset_secs < 86_400,
    ensures
        r as int == ((unix_secs as int + offset_secs as int) % 86_400) / 3600,
{
    let tz = chrono::FixedOffset::east_opt(offset_secs).unwrap();
    chrono::DateTime::from_timestamp(unix_secs, 0).unwrap().with_timezone(&tz).hour()
}

/// Which greeting fits the time of day.
#[derive(PartialEq, Eq, Structural, Debug, Clone, Copy)]
pub enum GreetingKey {
    Morning,
    Afternoon,
    Evening,
}

/// Morning from 5 to 11 o'clock, afternoon from 12 to 18, evening otherwise.
pub open spec fn greeting_for_hour_spec(hour: u32) -> GreetingKey {
    if 5 <= hour <= 11 {
        GreetingKey::Morning
    } else if 12 <= hour <= 18 {
        GreetingKey::Afternoon
    } else {
        GreetingKey::Evening
    }
}

pub fn greeting_for_hour(hour: u32) -> (r: GreetingKey)
    ensures
        r == greeting_for_hour_spec(hour),
{
    if 5 <= hour && hour <= 11 {
        GreetingKey::Morning
    } else if 12 <= hour && hour <= 18 {
        GreetingKey::Afternoon
    } else {
        GreetingKey::Evening
    }
}

/// The hour of day at a Unix time, at a fixed offset from UTC.
pub open spec fn hour_at_offset_spec(unix_secs: i64, offset_secs: i32) -> u32 {
    (((unix_secs as int + offset_secs as int) % 86_400) / 3600) as u32
}

/// The greeting for `unix_secs`, by the hour at a fixed offset from UTC.
pub fn greeting_at_offset(unix_secs: i64, offset_secs: i32) -> (r: GreetingKey)
    requires
        EARLIEST_UNIX_SECS <= unix_secs <= LATEST_UNIX_SECS,
        -86_400 < offset_secs < 86_400,
    ensures
        r == greeting_for_hour_spec(hour_at_offset_spec(unix_secs, offset_secs)),
{
    let hour = hour_at_offset(unix_secs, offset_secs);
    greeting_for_hour(hour)
}

/// The hour of day in Bogota at a Unix time.
pub open spec fn bogota_hour_spec(unix_secs: i64) -> u32 {
    (((unix_secs as int + BOGOTA_OFFSET_SECS as int) % 86_400) / 3600) as u32
}

/// The greeting for a call answered at `unix_secs`, by the hour in Bogota.
pub fn greeting_at(unix_secs: i64) -> (r: GreetingKey)
    requires
        EARLIEST_UNIX_SECS <= unix_secs <= LATEST_UNIX_SECS,
    ensures
        r == greeting_for_hour_spec(bogota_hour_spec(unix_secs)),
{
    greeting_at_offset(unix_secs, BOGOTA_OFFSET_SECS)
}

pub open spec fn greeting_name_spec(k: GreetingKey) -> Seq<char> {
    match k {
        GreetingKey::Morning => "morning"@,
        GreetingKey::Afternoon => "afternoon"@,
        GreetingKey::Evening => "evening"@,
    }
}

pub open spec fn greeting_text_spec(k: GreetingKey) -> Seq<char> {
    match k {
        GreetingKey::Morning => "Buenos dias, bienvenido a Clinica Veterinaria LA WANDA Y MACARENA, hablas con Maria. Con quien tengo el gusto?"@,
        GreetingKey::Afternoon => "Buenas tardes, bienvenido a Clinica Veterinaria LA WANDA Y MACARENA, hablas con Maria. Con quien tengo el gusto?"@,
        GreetingKey::Evening => "Buenas noches, bienvenido a Clinica Veterinaria LA WANDA Y MACARENA, hablas con Maria. Con quien tengo el gusto?"@,
    }
}

impl GreetingKey {
    /// The key's name, as used in storage keys and logs.
    pub fn name(&self) -> (r: &'static str)
        ensures
            r@ == greeting_name_spec(*self),
    {
        match self {
            GreetingKey::Morning => "morning",
            GreetingKey::Afternoon => "afternoon",
            GreetingKey::Evening => "evening",
        }
    }

    /// The words spoken.
    pub fn text(&self) -> (r: &'static str)
        ensures
            r@ == greeting_text_spec(*self),
    {
        match self {
            GreetingKey::Morning => "Buenos dias, bienvenido a Clinica Veterinaria LA WANDA Y MACARENA, hablas con Maria. Con quien tengo el gusto?",
            GreetingKey::Afternoon => "Buenas tardes, bienvenido a Clinica Veterinaria LA WANDA Y MACARENA, hablas con Maria. Con quien tengo el gusto?",
            GreetingKey::Evening => "Buenas noches, bienvenido a Clinica Veterinaria LA WANDA Y MACARENA, hablas con Maria. Con quien tengo el gusto?",
        }
    }

    /// Where the synthesized greeting is stored, for reuse by later calls.
    pub fn storage_key(&self) -> (r: String)
        ensures
            r@ == "audio/greeting_"@ + greeting_name_spec(*self) + ".mp3"@,
    {
        let mut k = String::new();
        push_str(&mut k, "audio/greeting_");
        push_str(&mut k, self.name());
        push_str(&mut k, ".mp3");
        k
    }

    /// The key with the given name, if there is one.
    pub fn from_name(name: &str) -> (r: Option<GreetingKey>)
        ensures
            r matches Some(k) ==> greeting_name_spec(k) == name@,
            r is None ==> name@ != greeting_name_spec(GreetingKey::Morning) && name@
                != greeting_name_spec(GreetingKey::Afternoon) && name@ != greeting_name_spec(
                GreetingKey::Evening,
            ),
    {
        if same_text(name, "morning") {
            Some(GreetingKey::Morning)
        } else if same_text(name, "afternoon") {
            Some(GreetingKey::Afternoon)
        } else if same_text(name, "evening") {
            Some(GreetingKey::Evening)
        } else {
            None
        }
    }
}

/// A short phrase played while a reply is prepared.
#[derive(PartialEq, Eq, Structural, Debug, Clone, Copy)]
pub enum QuickReply {
    Processing,
}

impl QuickReply {
    pub fn name(&self) -> (r: &'static str)
        ensures
            r@ == "processing"@,
    {
        "processing"
    }

    pub fn text(&self) -> (r: &'static str)
        ensures
            r@ == "Entendido, dame un segundo mientras preparo tu respuesta."@,
    {
        "Entendido, dame un segundo mientras preparo tu respuesta."
    }

    pub fn storage_key(&self) -> (r: String)
        ensures
            r@ == "audio/quick_"@ + "processing"@ + ".mp3"@,
    {
        let mut k = String::new();
        push_str(&mut k, "audio/quick_");
        push_str(&mut k, self.name());
        push_str(&mut k, ".mp3");
        k
    }

    pub fn from_name(name: &str) -> (r: Option<QuickReply>)
        ensures
            r is Some <==> name@ == "processing"@,
    {
        if same_text(name, "processing") {
            Some(QuickReply::Processing)
        } else {
            None
        }
    }
}

} // verus!
