//! The typed weather record and its decoding from the vendor's JSON objects.

use vstd::prelude::*;
use crate::error::FetchError;
use crate::json::{
    items_view, lemma_array_view, lemma_member_is_listed, lemma_object_view, lookup, member,
    members_view, Json, JsonView, Number,
};

verus! {

/// One reading of a weather station. Every field is optional: device models
/// report different subsets of the vendor's parameters.
#[derive(Clone, Debug, PartialEq)]
pub struct WeatherData {
    /// When the reading was taken, in milliseconds since the Unix epoch.
    pub dateutc: Option<i64>,
    /// When the reading was taken, as the vendor formats it.
    pub date: Option<String>,
    /// The IANA time zone of the station.
    pub tz: Option<String>,
    /// The MAC address of the reporting device.
    pub mac_address: Option<String>,
    /// Outdoor temperature, in degrees Fahrenheit.
    pub tempf: Option<Number>,
    /// Indoor temperature, in degrees Fahrenheit.
    pub tempinf: Option<Number>,
    /// Outdoor apparent temperature, in degrees Fahrenheit.
    pub feels_like: Option<Number>,
    /// Indoor apparent temperature, in degrees Fahrenheit.
    pub feels_like_in: Option<Number>,
    /// Outdoor dew point, in degrees Fahrenheit.
    pub dew_point: Option<Number>,
    /// Indoor dew point, in degrees Fahrenheit.
    pub dew_point_in: Option<Number>,
    /// Outdoor relative humidity, in percent.
    pub humidity: Option<i64>,
    /// Indoor relative humidity, in percent.
    pub humidityin: Option<i64>,
    /// Relative pressure, in inches of mercury.
    pub baromrelin: Option<Number>,
    /// Absolute pressure, in inches of mercury.
    pub baromabsin: Option<Number>,
    /// Instantaneous wind direction, in degrees.
    pub winddir: Option<i64>,
    /// Wind direction averaged over two minutes, in degrees.
    pub winddir_avg2m: Option<i64>,
    /// Wind direction averaged over ten minutes, in degrees.
    pub winddir_avg10m: Option<i64>,
    /// Direction of the strongest recent gust, in degrees.
    pub windgustdir: Option<i64>,
    /// Instantaneous wind speed, in miles per hour.
    pub windspeedmph: Option<Number>,
    /// Wind speed averaged over two minutes, in miles per hour.
    pub windspdmph_avg2m: Option<Number>,
    /// Wind speed averaged over ten minutes, in miles per hour.
    pub windspdmph_avg10m: Option<Number>,
    /// Strongest gust of the last ten minutes, in miles per hour.
    pub windgustmph: Option<Number>,
    /// Strongest gust of the day, in miles per hour.
    pub maxdailygust: Option<Number>,
    /// Rain rate, in inches per hour.
    pub hourlyrainin: Option<Number>,
    /// Rain of the current event, in inches.
    pub eventrainin: Option<Number>,
    /// Rain of the day, in inches.
    pub dailyrainin: Option<Number>,
    /// Rain of the last 24 hours, in inches.
    pub rain_24_hour_in: Option<Number>,
    /// Rain of the week, in inches.
    pub weeklyrainin: Option<Number>,
    /// Rain of the month, in inches.
    pub monthlyrainin: Option<Number>,
    /// Rain of the year, in inches.
    pub yearlyrainin: Option<Number>,
    /// Rain since the last reset, in inches.
    pub totalrainin: Option<Number>,
    /// When it last rained, as the vendor formats it.
    pub last_rain: Option<String>,
    /// Ultraviolet radiation index.
    pub uv: Option<i64>,
    /// Solar radiation, in watts per square metre.
    pub solarradiation: Option<Number>,
    /// Carbon dioxide, in parts per million.
    pub co2: Option<Number>,
    /// Fine particulate matter, in micrograms per cubic metre.
    pub pm25: Option<Number>,
    /// Fine particulate matter averaged over 24 hours.
    pub pm25_24h: Option<Number>,
    /// Battery indicator of the outdoor sensor.
    pub battout: Option<i64>,
    /// Battery indicator of the indoor sensor.
    pub battin: Option<i64>,
}

/// A weather record as a mathematical value: texts are character sequences.
pub struct WeatherDataView {
    pub dateutc: Option<i64>,
    pub date: Option<Seq<char>>,
    pub tz: Option<Seq<char>>,
    pub mac_address: Option<Seq<char>>,
    pub tempf: Option<Number>,
    pub tempinf: Option<Number>,
    pub feels_like: Option<Number>,
    pub feels_like_in: Option<Number>,
    pub dew_point: Option<Number>,
    pub dew_point_in: Option<Number>,
    pub humidity: Option<i64>,
    pub humidityin: Option<i64>,
    pub baromrelin: Option<Number>,
    pub baromabsin: Option<Number>,
    pub winddir: Option<i64>,
    pub winddir_avg2m: Option<i64>,
    pub winddir_avg10m: Option<i64>,
    pub windgustdir: Option<i64>,
    pub windspeedmph: Option<Number>,
    pub windspdmph_avg2m: Option<Number>,
    pub windspdmph_avg10m: Option<Number>,
    pub windgustmph: Option<Number>,
    pub maxdailygust: Option<Number>,
    pub hourlyrainin: Option<Number>,
    pub eventrainin: Option<Number>,
    pub dailyrainin: Option<Number>,
    pub rain_24_hour_in: Option<Number>,
    pub weeklyrainin: Option<Number>,
    pub monthlyrainin: Option<Number>,
    pub yearlyrainin: Option<Number>,
    pub totalrainin: Option<Number>,
    pub last_rain: Option<Seq<char>>,
    pub uv: Option<i64>,
    pub solarradiation: Option<Number>,
    pub co2: Option<Number>,
    pub pm25: Option<Number>,
    pub pm25_24h: Option<Number>,
    pub battout: Option<i64>,
    pub battin: Option<i64>,
}

/// The view of an optional text.
pub open spec fn text_view(text: Option<String>) -> Option<Seq<char>> {
    match text {
        Some(s) => Some(s@),
        None => None,
    }
}

impl View for WeatherData {
    type V = WeatherDataView;

    open spec fn view(&self) -> WeatherDataView {
        WeatherDataView {
            dateutc: self.dateutc,
            date: text_view(self.date),
            tz: text_view(self.tz),
            mac_address: text_view(self.mac_address),
            tempf: self.tempf,
            tempinf: self.tempinf,
            feels_like: self.feels_like,
            feels_like_in: self.feels_like_in,
            dew_point: self.dew_point,
            dew_point_in: self.dew_point_in,
            humidity: self.humidity,
            humidityin: self.humidityin,
            baromrelin: self.baromrelin,
            baromabsin: self.baromabsin,
            winddir: self.winddir,
            winddir_avg2m: self.winddir_avg2m,
            winddir_avg10m: self.winddir_avg10m,
            windgustdir: self.windgustdir,
            windspeedmph: self.windspeedmph,
            windspdmph_avg2m: self.windspdmph_avg2m,
            windspdmph_avg10m: self.windspdmph_avg10m,
            windgustmph: self.windgustmph,
            maxdailygust: self.maxdailygust,
            hourlyrainin: self.hourlyrainin,
            eventrainin: self.eventrainin,
            dailyrainin: self.dailyrainin,
            rain_24_hour_in: self.rain_24_hour_in,
            weeklyrainin: self.weeklyrainin,
            monthlyrainin: self.monthlyrainin,
            yearlyrainin: self.yearlyrainin,
            totalrainin: self.totalrainin,
            last_rain: text_view(self.last_rain),
            uv: self.uv,
            solarradiation: self.solarradiation,
            co2: self.co2,
            pm25: self.pm25,
            pm25_24h: self.pm25_24h,
            battout: self.battout,
            battin: self.battin,
        }
    }
}

impl WeatherDataView {
    /// The record in which every field is absent.
    pub open spec fn empty() -> WeatherDataView {
        WeatherDataView {
            dateutc: None,
            date: None,
            tz: None,
            mac_address: None,
            tempf: None,
            tempinf: None,
            feels_like: None,
            feels_like_in: None,
            dew_point: None,
            dew_point_in: None,
            humidity: None,
            humidityin: None,
            baromrelin: None,
            baromabsin: None,
            winddir: None,
            winddir_avg2m: None,
            winddir_avg10m: None,
            windgustdir: None,
            windspeedmph: None,
            windspdmph_avg2m: None,
            windspdmph_avg10m: None,
            windgustmph: None,
            maxdailygust: None,
            hourlyrainin: None,
            eventrainin: None,
            dailyrainin: None,
            rain_24_hour_in: None,
            weeklyrainin: None,
            monthlyrainin: None,
            yearlyrainin: None,
            totalrainin: None,
            last_rain: None,
            uv: None,
            solarradiation: None,
            co2: None,
            pm25: None,
            pm25_24h: None,
            battout: None,
            battin: None,
        }
    }
}

impl Default for WeatherData {
    /// The record in which every field is absent.
    fn default() -> (record: WeatherData)
        ensures
            record@ == WeatherDataView::empty(),
    {
        WeatherData {
            dateutc: None,
            date: None,
            tz: None,
            mac_address: None,
            tempf: None,
            tempinf: None,
            feels_like: None,
            feels_like_in: None,
            dew_point: None,
            dew_point_in: None,
            humidity: None,
            humidityin: None,
            baromrelin: None,
            baromabsin: None,
            winddir: None,
            winddir_avg2m: None,
            winddir_avg10m: None,
            windgustdir: None,
            windspeedmph: None,
            windspdmph_avg2m: None,
            windspdmph_avg10m: None,
            windgustmph: None,
            maxdailygust: None,
            hourlyrainin: None,
            eventrainin: None,
            dailyrainin: None,
            rain_24_hour_in: None,
            weeklyrainin: None,
            monthlyrainin: None,
            yearlyrainin: None,
            totalrainin: None,
            last_rain: None,
            uv: None,
            solarradiation: None,
            co2: None,
            pm25: None,
            pm25_24h: None,
            battout: None,
            battin: None,
        }
    }
}

/// The value of an optional field: absent where the field was rejected.
pub open spec fn present<T>(field: Result<Option<T>, FetchError>) -> Option<T> {
    match field {
        Ok(value) => value,
        Err(_) => None,
    }
}

/// What a member gives an integer field: nothing where the member is
/// missing or null, its value where it is an integer that fits `i64`, and a
/// decode error otherwise.
pub open spec fn integer_value(found: Option<JsonView>) -> Result<Option<i64>, FetchError> {
    match found {
        None => Ok(None),
        Some(JsonView::Null) => Ok(None),
        Some(JsonView::Number(Number::Int(value))) => Ok(Some(value)),
        Some(JsonView::Number(Number::Unsigned(value))) => if value <= i64::MAX {
            Ok(Some(value as i64))
        } else {
            Err(FetchError::Decode)
        },
        Some(_) => Err(FetchError::Decode),
    }
}

/// What a member gives a numeric field: nothing where the member is missing
/// or null, the number where it is one, and a decode error otherwise.
pub open spec fn number_value(found: Option<JsonView>) -> Result<Option<Number>, FetchError> {
    match found {
        None => Ok(None),
        Some(JsonView::Null) => Ok(None),
        Some(JsonView::Number(value)) => Ok(Some(value)),
        Some(_) => Err(FetchError::Decode),
    }
}

/// What a member gives a text field: nothing where the member is missing or
/// null, the text where it is a string, and a decode error otherwise.
pub open spec fn text_value(found: Option<JsonView>) -> Result<Option<Seq<char>>, FetchError> {
    match found {
        None => Ok(None),
        Some(JsonView::Null) => Ok(None),
        Some(JsonView::Text(value)) => Ok(Some(value)),
        Some(_) => Err(FetchError::Decode),
    }
}

/// Whether `name` is one of the vendor's parameter names that the record
/// holds.
pub open spec fn is_field_name(name: Seq<char>) -> bool {
    ||| name == "dateutc"@
    ||| name == "date"@
    ||| name == "tz"@
    ||| name == "macAddress"@
    ||| name == "tempf"@
    ||| name == "tempinf"@
    ||| name == "feelsLike"@
    ||| name == "feelsLikein"@
    ||| name == "dewPoint"@
    ||| name == "dewPointin"@
    ||| name == "humidity"@
    ||| name == "humidityin"@
    ||| name == "baromrelin"@
    ||| name == "baromabsin"@
    ||| name == "winddir"@
    ||| name == "winddir_avg2m"@
    ||| name == "winddir_avg10m"@
    ||| name == "windgustdir"@
    ||| name == "windspeedmph"@
    ||| name == "windspdmph_avg2m"@
    ||| name == "windspdmph_avg10m"@
    ||| name == "windgustmph"@
    ||| name == "maxdailygust"@
    ||| name == "hourlyrainin"@
    ||| name == "eventrainin"@
    ||| name == "dailyrainin"@
    ||| name == "24hourrainin"@
    ||| name == "weeklyrainin"@
    ||| name == "monthlyrainin"@
    ||| name == "yearlyrainin"@
    ||| name == "totalrainin"@
    ||| name == "lastRain"@
    ||| name == "uv"@
    ||| name == "solarradiation"@
    ||| name == "co2"@
    ||| name == "pm25"@
    ||| name == "pm25_24h"@
    ||| name == "battout"@
    ||| name == "battin"@
}

/// Whether each recognized member of the object has the type of its field.
pub open spec fn well_typed(members: Seq<(Seq<char>, JsonView)>) -> bool {
    &&& integer_value(member(members, "dateutc"@)) is Ok
    &&& text_value(member(members, "date"@)) is Ok
    &&& text_value(member(members, "tz"@)) is Ok
    &&& text_value(member(members, "macAddress"@)) is Ok
    &&& number_value(member(members, "tempf"@)) is Ok
    &&& number_value(member(members, "tempinf"@)) is Ok
    &&& number_value(member(members, "feelsLike"@)) is Ok
    &&& number_value(member(members, "feelsLikein"@)) is Ok
    &&& number_value(member(members, "dewPoint"@)) is Ok
    &&& number_value(member(members, "dewPointin"@)) is Ok
    &&& integer_value(member(members, "humidity"@)) is Ok
    &&& integer_value(member(members, "humidityin"@)) is Ok
    &&& number_value(member(members, "baromrelin"@)) is Ok
    &&& number_value(member(members, "baromabsin"@)) is Ok
    &&& integer_value(member(members, "winddir"@)) is Ok
    &&& integer_value(member(members, "winddir_avg2m"@)) is Ok
    &&& integer_value(member(members, "winddir_avg10m"@)) is Ok
    &&& integer_value(member(members, "windgustdir"@)) is Ok
    &&& number_value(member(members, "windspeedmph"@)) is Ok
    &&& number_value(member(members, "windspdmph_avg2m"@)) is Ok
    &&& number_value(member(members, "windspdmph_avg10m"@)) is Ok
    &&& number_value(member(members, "windgustmph"@)) is Ok
    &&& number_value(member(members, "maxdailygust"@)) is Ok
    &&& number_value(member(members, "hourlyrainin"@)) is Ok
    &&& number_value(member(members, "eventrainin"@)) is Ok
    &&& number_value(member(members, "dailyrainin"@)) is Ok
    &&& number_value(member(members, "24hourrainin"@)) is Ok
    &&& number_value(member(members, "weeklyrainin"@)) is Ok
    &&& number_value(member(members, "monthlyrainin"@)) is Ok
    &&& number_value(member(members, "yearlyrainin"@)) is Ok
    &&& number_value(member(members, "totalrainin"@)) is Ok
    &&& text_value(member(members, "lastRain"@)) is Ok
    &&& integer_value(member(members, "uv"@)) is Ok
    &&& number_value(member(members, "solarradiation"@)) is Ok
    &&& number_value(member(members, "co2"@)) is Ok
    &&& number_value(member(members, "pm25"@)) is Ok
    &&& number_value(member(members, "pm25_24h"@)) is Ok
    &&& integer_value(member(members, "battout"@)) is Ok
    &&& integer_value(member(members, "battin"@)) is Ok
}

/// The record that the recognized, well-typed members of the object give.
pub open spec fn record_of(members: Seq<(Seq<char>, JsonView)>) -> WeatherDataView {
    WeatherDataView {
        dateutc: present(integer_value(member(members, "dateutc"@))),
        date: present(text_value(member(members, "date"@))),
        tz: present(text_value(member(members, "tz"@))),
        mac_address: present(text_value(member(members, "macAddress"@))),
        tempf: present(number_value(member(members, "tempf"@))),
        tempinf: present(number_value(member(members, "tempinf"@))),
        feels_like: present(number_value(member(members, "feelsLike"@))),
        feels_like_in: present(number_value(member(members, "feelsLikein"@))),
        dew_point: present(number_value(member(members, "dewPoint"@))),
        dew_point_in: present(number_value(member(members, "dewPointin"@))),
        humidity: present(integer_value(member(members, "humidity"@))),
        humidityin: present(integer_value(member(members, "humidityin"@))),
        baromrelin: present(number_value(member(members, "baromrelin"@))),
        baromabsin: present(number_value(member(members, "baromabsin"@))),
        winddir: present(integer_value(member(members, "winddir"@))),
        winddir_avg2m: present(integer_value(member(members, "winddir_avg2m"@))),
        winddir_avg10m: present(integer_value(member(members, "winddir_avg10m"@))),
        windgustdir: present(integer_value(member(members, "windgustdir"@))),
        windspeedmph: present(number_value(member(members, "windspeedmph"@))),
        windspdmph_avg2m: present(number_value(member(members, "windspdmph_avg2m"@))),
        windspdmph_avg10m: present(number_value(member(members, "windspdmph_avg10m"@))),
        windgustmph: present(number_value(member(members, "windgustmph"@))),
        maxdailygust: present(number_value(member(members, "maxdailygust"@))),
        hourlyrainin: present(number_value(member(members, "hourlyrainin"@))),
        eventrainin: present(number_value(member(members, "eventrainin"@))),
        dailyrainin: present(number_value(member(members, "dailyrainin"@))),
        rain_24_hour_in: present(number_value(member(members, "24hourrainin"@))),
        weeklyrainin: present(number_value(member(members, "weeklyrainin"@))),
        monthlyrainin: present(number_value(member(members, "monthlyrainin"@))),
        yearlyrainin: present(number_value(member(members, "yearlyrainin"@))),
        totalrainin: present(number_value(member(members, "totalrainin"@))),
        last_rain: present(text_value(member(members, "lastRain"@))),
        uv: present(integer_value(member(members, "uv"@))),
        solarradiation: present(number_value(member(members, "solarradiation"@))),
        co2: present(number_value(member(members, "co2"@))),
        pm25: present(number_value(member(members, "pm25"@))),
        pm25_24h: present(number_value(member(members, "pm25_24h"@))),
        battout: present(integer_value(member(members, "battout"@))),
        battin: present(integer_value(member(members, "battin"@))),
    }
}

/// The strict decoding of one JSON value: the record of an object whose
/// recognized members are all well typed, and a decode error for anything
/// else. Members with other names are ignored.
pub open spec fn decode_spec(json: JsonView) -> Result<WeatherDataView, FetchError> {
    match json {
        JsonView::Object(members) => if well_typed(members) {
            Ok(record_of(members))
        } else {
            Err(FetchError::Decode)
        },
        _ => Err(FetchError::Decode),
    }
}

/// The lenient decoding of one JSON value: the strict one where it succeeds,
/// and the empty record where it does not.
pub open spec fn decode_lenient(json: JsonView) -> WeatherDataView {
    match decode_spec(json) {
        Ok(record) => record,
        Err(_) => WeatherDataView::empty(),
    }
}

/// Whether every element decodes strictly.
pub open spec fn all_decode(items: Seq<JsonView>) -> bool {
    forall|i: int| 0 <= i < items.len() ==> (#[trigger] decode_spec(items[i])) is Ok
}

/// The strict decoding of a JSON array: the records of its elements in the
/// array's order, or a decode error where the value is not an array or one
/// of its elements does not decode.
pub open spec fn decode_many_spec(json: JsonView) -> Result<Seq<WeatherDataView>, FetchError> {
    match json {
        JsonView::Array(items) => if all_decode(items) {
            Ok(Seq::new(items.len(), |i: int| decode_spec(items[i])->Ok_0))
        } else {
            Err(FetchError::Decode)
        },
        _ => Err(FetchError::Decode),
    }
}

/// The views of a list of records.
pub open spec fn views(records: Seq<WeatherData>) -> Seq<WeatherDataView> {
    records.map_values(|record: WeatherData| record@)
}

/// Two objects that agree on the members with recognized names decode
/// alike: members with other names are ignored.
pub proof fn lemma_other_members_are_ignored(first: JsonView, second: JsonView)
    requires
        first is Object,
        second is Object,
        forall|name: Seq<char>|
            is_field_name(name) ==> #[trigger] member(first->Object_0, name) == member(
                second->Object_0,
                name,
            ),
    ensures
        decode_spec(first) == decode_spec(second),
{
}

/// An object none of whose members bears a recognized name decodes to the
/// record in which every field is absent, strictly and leniently alike.
pub proof fn lemma_unrecognized_members_give_empty_record(json: JsonView)
    requires
        json is Object,
        forall|i: int|
            0 <= i < json->Object_0.len() ==> !is_field_name((#[trigger] json->Object_0[i]).0),
    ensures
        decode_spec(json) == Ok::<WeatherDataView, FetchError>(WeatherDataView::empty()),
        decode_lenient(json) == WeatherDataView::empty(),
{
    let members = json->Object_0;
    assert forall|name: Seq<char>| is_field_name(name) implies (#[trigger] member(
        members,
        name,
    )) is None by {
        lemma_member_is_listed(members, name);
    }
}

/// A temperature that is neither a number nor null makes the strict
/// decoding fail; the lenient decoding then gives the empty record.
pub proof fn lemma_mistyped_temperature_is_rejected(json: JsonView)
    requires
        json is Object,
        member(json->Object_0, "tempf"@) is Some,
        !(member(json->Object_0, "tempf"@)->Some_0 is Number),
        !(member(json->Object_0, "tempf"@)->Some_0 is Null),
    ensures
        decode_spec(json) == Err::<WeatherDataView, FetchError>(FetchError::Decode),
        decode_lenient(json) == WeatherDataView::empty(),
{
    assert(number_value(member(json->Object_0, "tempf"@)) is Err);
}

/// A value that is no object does not decode strictly; its lenient
/// decoding is the record in which every field is absent.
pub proof fn lemma_non_object_gives_empty_record(json: JsonView)
    requires
        !(json is Object),
    ensures
        decode_spec(json) == Err::<WeatherDataView, FetchError>(FetchError::Decode),
        decode_lenient(json) == WeatherDataView::empty(),
{
}

/// One element that does not decode fails the whole list.
pub proof fn lemma_one_failure_fails_the_list(json: JsonView, i: int)
    requires
        json is Array,
        0 <= i < json->Array_0.len(),
        decode_spec(json->Array_0[i]) is Err,
    ensures
        decode_many_spec(json) == Err::<Seq<WeatherDataView>, FetchError>(FetchError::Decode),
{
}

/// A decoded list has one record for each element of the array, in the
/// array's order.
pub proof fn lemma_decoded_list_keeps_order(json: JsonView)
    requires
        decode_many_spec(json) is Ok,
    ensures
        json is Array,
        decode_many_spec(json)->Ok_0.len() == json->Array_0.len(),
        forall|i: int|
            0 <= i < json->Array_0.len() ==> decode_spec(#[trigger] json->Array_0[i]) == Ok::<
                WeatherDataView,
                FetchError,
            >(decode_many_spec(json)->Ok_0[i]),
{
    let items = json->Array_0;
    assert forall|i: int| 0 <= i < items.len() implies decode_spec(#[trigger] items[i]) == Ok::<
        WeatherDataView,
        FetchError,
    >(decode_many_spec(json)->Ok_0[i]) by {
        assert(decode_spec(items[i]) is Ok);
    }
}

fn integer_field(members: &Vec<(String, Json)>, name: &str) -> (field: Result<
    Option<i64>,
    FetchError,
>)
    ensures
        field == integer_value(member(members_view(members@), name@)),
{
    match lookup(members, name) {
        None => Ok(None),
        Some(Json::Null) => Ok(None),
        Some(Json::Number(Number::Int(value))) => Ok(Some(*value)),
        Some(Json::Number(Number::Unsigned(value))) => {
            if *value <= i64::MAX as u64 {
                Ok(Some(*value as i64))
            } else {
                Err(FetchError::Decode)
            }
        },
        Some(_) => Err(FetchError::Decode),
    }
}

fn number_field(members: &Vec<(String, Json)>, name: &str) -> (field: Result<
    Option<Number>,
    FetchError,
>)
    ensures
        field == number_value(member(members_view(members@), name@)),
{
    match lookup(members, name) {
        None => Ok(None),
        Some(Json::Null) => Ok(None),
        Some(Json::Number(value)) => Ok(Some(*value)),
        Some(_) => Err(FetchError::Decode),
    }
}

fn text_field(members: &Vec<(String, Json)>, name: &str) -> (field: Result<
    Option<String>,
    FetchError,
>)
    ensures
        match field {
            Ok(text) => text_value(member(members_view(members@), name@)) == Ok::<
                Option<Seq<char>>,
                FetchError,
            >(text_view(text)),
            Err(e) => text_value(member(members_view(members@), name@)) == Err::<
                Option<Seq<char>>,
                FetchError,
            >(e),
        },
{
    match lookup(members, name) {
        None => Ok(None),
        Some(Json::Null) => Ok(None),
        Some(Json::Text(value)) => Ok(Some(value.clone())),
        Some(_) => Err(FetchError::Decode),
    }
}

/// Decodes one JSON value strictly: an object whose recognized members are
/// all well typed gives its record; anything else is a decode error.
pub fn decode_strict(json: &Json) -> (decoded: Result<WeatherData, FetchError>)
    ensures
        match decoded {
            Ok(record) => decode_spec(json@) == Ok::<WeatherDataView, FetchError>(record@),
            Err(e) => decode_spec(json@) == Err::<WeatherDataView, FetchError>(e),
        },
{
    match json {
        Json::Object(members) => {
            proof {
                lemma_object_view(*members);
            }
            let dateutc = integer_field(members, "dateutc")?;
            let date = text_field(members, "date")?;
            let tz = text_field(members, "tz")?;
            let mac_address = text_field(members, "macAddress")?;
            let tempf = number_field(members, "tempf")?;
            let tempinf = number_field(members, "tempinf")?;
            let feels_like = number_field(members, "feelsLike")?;
            let feels_like_in = number_field(members, "feelsLikein")?;
            let dew_point = number_field(members, "dewPoint")?;
            let dew_point_in = number_field(members, "dewPointin")?;
            let humidity = integer_field(members, "humidity")?;
            let humidityin = integer_field(members, "humidityin")?;
            let baromrelin = number_field(members, "baromrelin")?;
            let baromabsin = number_field(members, "baromabsin")?;
            let winddir = integer_field(members, "winddir")?;
            let winddir_avg2m = integer_field(members, "winddir_avg2m")?;
            let winddir_avg10m = integer_field(members, "winddir_avg10m")?;
            let windgustdir = integer_field(members, "windgustdir")?;
            let windspeedmph = number_field(members, "windspeedmph")?;
            let windspdmph_avg2m = number_field(members, "windspdmph_avg2m")?;
            let windspdmph_avg10m = number_field(members, "windspdmph_avg10m")?;
            let windgustmph = number_field(members, "windgustmph")?;
            let maxdailygust = number_field(members, "maxdailygust")?;
            let hourlyrainin = number_field(members, "hourlyrainin")?;
            let eventrainin = number_field(members, "eventrainin")?;
            let dailyrainin = number_field(members, "dailyrainin")?;
            let rain_24_hour_in = number_field(members, "24hourrainin")?;
            let weeklyrainin = number_field(members, "weeklyrainin")?;
            let monthlyrainin = number_field(members, "monthlyrainin")?;
            let yearlyrainin = number_field(members, "yearlyrainin")?;
            let totalrainin = number_field(members, "totalrainin")?;
            let last_rain = text_field(members, "lastRain")?;
            let uv = integer_field(members, "uv")?;
            let solarradiation = number_field(members, "solarradiation")?;
            let co2 = number_field(members, "co2")?;
            let pm25 = number_field(members, "pm25")?;
            let pm25_24h = number_field(members, "pm25_24h")?;
            let battout = integer_field(members, "battout")?;
            let battin = integer_field(members, "battin")?;
            Ok(
                WeatherData {
                    dateutc,
                    date,
                    tz,
                    mac_address,
                    tempf,
                    tempinf,
                    feels_like,
                    feels_like_in,
                    dew_point,
                    dew_point_in,
                    humidity,
                    humidityin,
                    baromrelin,
                    baromabsin,
                    winddir,
                    winddir_avg2m,
                    winddir_avg10m,
                    windgustdir,
                    windspeedmph,
                    windspdmph_avg2m,
                    windspdmph_avg10m,
                    windgustmph,
                    maxdailygust,
                    hourlyrainin,
                    eventrainin,
                    dailyrainin,
                    rain_24_hour_in,
                    weeklyrainin,
                    monthlyrainin,
                    yearlyrainin,
                    totalrainin,
                    last_rain,
                    uv,
                    solarradiation,
                    co2,
                    pm25,
                    pm25_24h,
                    battout,
                    battin,
                },
            )
        },
        _ => Err(FetchError::Decode),
    }
}

/// Decodes one JSON value leniently: where the strict decoding fails, the
/// result is the record in which every field is absent.
pub fn decode_one(json: &Json) -> (record: WeatherData)
    ensures
        record@ == decode_lenient(json@),
{
    match decode_strict(json) {
        Ok(record) => record,
        Err(_) => WeatherData::default(),
    }
}

/// Decodes a JSON array of readings strictly, in the array's order. One
/// element that does not decode fails the whole list.
pub fn decode_many(json: &Json) -> (decoded: Result<Vec<WeatherData>, FetchError>)
    ensures
        match decoded {
            Ok(records) => decode_many_spec(json@) == Ok::<Seq<WeatherDataView>, FetchError>(
                views(records@),
            ),
            Err(e) => decode_many_spec(json@) == Err::<Seq<WeatherDataView>, FetchError>(e),
        },
{
    match json {
        Json::Array(items) => {
            proof {
                lemma_array_view(*items);
            }
            let mut records: Vec<WeatherData> = Vec::new();
            let mut i: usize = 0;
            while i < items.len()
                invariant
                    i <= items.len(),
                    records.len() == i,
                    json@ == JsonView::Array(items_view(items@)),
                    forall|j: int|
                        0 <= j < i ==> (#[trigger] decode_spec(items_view(items@)[j])) == Ok::<
                            WeatherDataView,
                            FetchError,
                        >(records@[j]@),
                decreases items.len() - i,
            {
                match decode_strict(&items[i]) {
                    Ok(record) => {
                        records.push(record);
                    },
                    Err(e) => {
                        assert(!(decode_spec(items_view(items@)[i as int]) is Ok));
                        return Err(e);
                    },
                }
                i += 1;
            }
            proof {
                let elements = items_view(items@);
                let expected = Seq::new(elements.len(), |i: int| decode_spec(elements[i])->Ok_0);
                assert(views(records@) =~= expected);
            }
            Ok(records)
        },
        _ => Err(FetchError::Decode),
    }
}

} // verus!
