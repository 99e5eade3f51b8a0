use crate::coords::{mapper_of, CoordinateMapper, CANVAS_WIDTH, VIEWPORT_WIDTH};
use crate::metric::{metric, metric_value, metrics_of, value_ok, WeatherElement};
use crate::precip::{precipitation_for, precipitation_probability};
use crate::scale::{
    element_range, in_temperature_family, range_of, scale_ticks, temperature_family, tick,
    unified_temperature_range, ValueRange, TICK_INTERVALS,
};
use crate::timeline::{merge_timeline, merged, nearest_index, nearest_of};
use crate::weather::{
    all_wf, points_are_well_formed, times_of, ApiWeatherData, ForecastPrecip, WeatherDataPoint,
};
use vstd::prelude::*;

verus! {

/// Latitude of the place shown at the start: Denver, in millionths of a
/// degree.
pub const HOME_LATITUDE: i64 = 39_739_200;

/// Longitude of the place shown at the start.
pub const HOME_LONGITUDE: i64 = -104_990_300;

/// Largest latitude, in millionths of a degree.
pub const MAX_LATITUDE: i64 = 90_000_000;

/// Largest longitude, in millionths of a degree.
pub const MAX_LONGITUDE: i64 = 180_000_000;

/// A place that the user typed in: its coordinates in millionths of a degree,
/// and the name to show for it.
#[derive(Debug, PartialEq, Eq)]
pub struct CustomLocation {
    pub lat: i64,
    pub lon: i64,
    pub label: String,
}

/// What happened: an answer of the weather service, or an act of the user.
#[derive(Debug, PartialEq, Eq)]
pub enum Message {
    WeatherFetched(Result<ApiWeatherData, String>),
    /// Fetch the weather of a named place at a latitude and a longitude.
    FetchWeather(String, i64, i64),
    LatInputChanged(String),
    LonInputChanged(String),
    /// Fetch the weather of the place typed in, as far as the two inputs
    /// read as numbers.
    FetchCustomLocation(Option<CustomLocation>),
    PreviousHour,
    NextHour,
    GoToNow,
    /// A press on the chart at the point with this index.
    MeteogramClicked(usize),
    SelectWeatherElement(WeatherElement),
}

/// What is to be done after a message.
#[derive(Debug, Clone, Copy, PartialEq, Eq, Structural)]
pub enum Command {
    /// Nothing.
    Idle,
    /// Ask the weather service for a place, in millionths of a degree.
    Fetch { lat: i64, lon: i64 },
    /// Scroll the chart to an offset, in thousandths of a pixel.
    ScrollTo(i128),
}

/// The state of the application.
pub struct WeatherApp {
    pub current_city: String,
    pub weather_data: Option<ApiWeatherData>,
    pub combined_timeline: Vec<WeatherDataPoint>,
    pub loading: bool,
    pub error: Option<String>,
    pub lat_input: String,
    pub lon_input: String,
    pub timeline_index: usize,
    /// When the last answer came, as a Unix timestamp.
    pub last_updated: Option<i64>,
    pub should_scroll_to_now: bool,
    pub selected_weather_element: WeatherElement,
}

/// Whether a latitude and a longitude are on the globe.
pub open spec fn on_globe(lat: int, lon: int) -> bool {
    -MAX_LATITUDE <= lat <= MAX_LATITUDE && -MAX_LONGITUDE <= lon <= MAX_LONGITUDE
}

/// What is said where the typed coordinates are off the globe.
pub open spec fn off_globe_text() -> Seq<char> {
    "Invalid coordinates: Latitude must be between -90 and 90, Longitude between -180 and 180"@
}

/// What is said where the typed coordinates are no numbers.
pub open spec fn not_numeric_text() -> Seq<char> {
    "Invalid input: Please enter valid numeric coordinates"@
}

/// The command that centres the point at `index` in the viewport; nothing
/// where the timeline has no mapper or the point has no time.
pub open spec fn scroll_command(timeline: Seq<WeatherDataPoint>, index: int) -> Command {
    match mapper_of(times_of(timeline), CANVAS_WIDTH as int) {
        Some(mapper) => if 0 <= index < timeline.len() && timeline[index].time() is Some {
            Command::ScrollTo(
                CoordinateMapper::centred(
                    mapper.x_of(timeline[index].time().unwrap() as int),
                    VIEWPORT_WIDTH as int,
                ) as i128,
            )
        } else {
            Command::Idle
        },
        None => Command::Idle,
    }
}

/// The index after a step back: one less, but never under 0.
pub open spec fn stepped_back(index: int) -> int {
    if index > 0 {
        index - 1
    } else {
        index
    }
}

/// The index after a step forward: one more, but never past the last point.
pub open spec fn stepped_forward(index: int, len: int) -> int {
    if index + 1 < len {
        index + 1
    } else {
        index
    }
}

/// The index after a request for point `wanted`: that point where the
/// timeline has it, else the index as it was.
pub open spec fn picked(index: int, wanted: int, len: int) -> int {
    if wanted < len {
        wanted
    } else {
        index
    }
}

impl Message {
    /// An answer that a message carries is well formed.
    pub open spec fn wf(&self) -> bool {
        match self {
            Message::WeatherFetched(Ok(data)) => data.wf(),
            _ => true,
        }
    }

    /// Tells whether the message is well formed.
    pub fn is_well_formed(&self) -> (ok: bool)
        ensures
            ok == self.wf(),
    {
        match self {
            Message::WeatherFetched(Ok(data)) => data.is_well_formed(),
            _ => true,
        }
    }
}

impl Default for WeatherApp {
    fn default() -> (app: Self)
        ensures
            app.current_city@ == Seq::<char>::empty(),
            app.weather_data is None,
            app.combined_timeline@ == Seq::<WeatherDataPoint>::empty(),
            !app.loading,
            app.error is None,
            app.lat_input@ == Seq::<char>::empty(),
            app.lon_input@ == Seq::<char>::empty(),
            app.timeline_index == 0,
            app.last_updated is None,
            !app.should_scroll_to_now,
            app.selected_weather_element == WeatherElement::PrecipitationProbability,
            app.wf(),
    {
        WeatherApp {
            current_city: String::new(),
            weather_data: None,
            combined_timeline: Vec::new(),
            loading: false,
            error: None,
            lat_input: String::new(),
            lon_input: String::new(),
            timeline_index: 0,
            last_updated: None,
            should_scroll_to_now: false,
            selected_weather_element: WeatherElement::PrecipitationProbability,
        }
    }
}

impl WeatherApp {
    /// The records held are well formed.
    pub open spec fn wf(&self) -> bool {
        &&& all_wf(self.combined_timeline@)
        &&& self.weather_data is Some ==> self.weather_data.unwrap().wf()
    }

    /// Tells whether the records held are well formed.
    pub fn is_well_formed(&self) -> (ok: bool)
        ensures
            ok == self.wf(),
    {
        let data_ok: bool = match &self.weather_data {
            Some(data) => data.is_well_formed(),
            None => true,
        };
        data_ok && points_are_well_formed(&self.combined_timeline)
    }

    /// The selection is on the timeline, unless the timeline is empty.
    pub open spec fn selection_ok(&self) -> bool {
        self.combined_timeline.len() > 0 ==> self.timeline_index < self.combined_timeline.len()
    }

    /// The hourly precipitation table; empty without an answer.
    pub open spec fn hourly(&self) -> Seq<ForecastPrecip> {
        match self.weather_data {
            Some(data) => data.forecasts_precip_1hr@,
            None => Seq::empty(),
        }
    }

    /// The six-hourly precipitation table; empty without an answer.
    pub open spec fn six_hourly(&self) -> Seq<ForecastPrecip> {
        match self.weather_data {
            Some(data) => data.forecasts_precip_6hr@,
            None => Seq::empty(),
        }
    }

    pub open spec fn keeps_request(&self, before: &WeatherApp) -> bool {
        &&& self.current_city == before.current_city
        &&& self.loading == before.loading
        &&& self.error == before.error
    }

    pub open spec fn keeps_data(&self, before: &WeatherApp) -> bool {
        &&& self.weather_data == before.weather_data
        &&& self.combined_timeline == before.combined_timeline
        &&& self.last_updated == before.last_updated
        &&& self.should_scroll_to_now == before.should_scroll_to_now
    }

    pub open spec fn keeps_inputs(&self, before: &WeatherApp) -> bool {
        &&& self.lat_input == before.lat_input
        &&& self.lon_input == before.lon_input
    }

    pub open spec fn keeps_selection(&self, before: &WeatherApp) -> bool {
        &&& self.timeline_index == before.timeline_index
        &&& self.selected_weather_element == before.selected_weather_element
    }

    /// The state at the start, with the request for the weather of Denver.
    pub fn new() -> (start: (WeatherApp, Command))
        ensures
            start.0.current_city@ == "Denver"@,
            start.0.weather_data is None,
            start.0.combined_timeline@ == Seq::<WeatherDataPoint>::empty(),
            !start.0.loading,
            start.0.error is None,
            start.0.lat_input@ == Seq::<char>::empty(),
            start.0.lon_input@ == Seq::<char>::empty(),
            start.0.timeline_index == 0,
            start.0.last_updated is None,
            !start.0.should_scroll_to_now,
            start.0.selected_weather_element == WeatherElement::PrecipitationProbability,
            start.0.wf(),
            start.1 == (Command::Fetch { lat: HOME_LATITUDE, lon: HOME_LONGITUDE }),
    {
        let mut app: WeatherApp = WeatherApp::default();
        app.current_city = String::from_str("Denver");
        (app, Command::Fetch { lat: HOME_LATITUDE, lon: HOME_LONGITUDE })
    }

    /// The probability of precipitation at the time that `target_time`
    /// spells; none without an answer of the weather service.
    pub fn get_precipitation_probability(&self, target_time: &str) -> (probability: Option<i64>)
        ensures
            probability == precipitation_for(target_time@, self.hourly(), self.six_hourly()),
    {
        match &self.weather_data {
            Some(weather) => precipitation_probability(
                target_time,
                &weather.forecasts_precip_1hr,
                &weather.forecasts_precip_6hr,
            ),
            None => {
                proof {
                    crate::precip::lemma_cover_from(
                        Seq::empty(),
                        crate::precip::HOUR_WINDOW as int,
                        0,
                        0,
                    );
                }
                None
            },
        }
    }

    /// Rebuilds the timeline from the answer held and selects the point
    /// nearest to `now`. Without an answer nothing changes.
    pub fn build_timeline(&mut self, now: i64)
        requires
            old(self).wf(),
        ensures
            final(self).wf(),
            final(self).keeps_request(old(self)),
            final(self).keeps_inputs(old(self)),
            final(self).weather_data == old(self).weather_data,
            final(self).last_updated == old(self).last_updated,
            final(self).should_scroll_to_now == old(self).should_scroll_to_now,
            final(self).selected_weather_element == old(self).selected_weather_element,
            match old(self).weather_data {
                Some(data) => final(self).combined_timeline@ == merged(
                    data.observations_instant@,
                    data.forecasts_instant@,
                ) && final(self).timeline_index == nearest_of(
                    times_of(final(self).combined_timeline@),
                    now as int,
                ),
                None => final(self).combined_timeline == old(self).combined_timeline && final(self).timeline_index == old(self).timeline_index,
            },
            old(self).weather_data is Some ==> final(self).selection_ok(),
    {
        match &self.weather_data {
            Some(weather) => {
                let timeline: Vec<WeatherDataPoint> = merge_timeline(
                    &weather.observations_instant,
                    &weather.forecasts_instant,
                );
                let index: usize = nearest_index(&timeline, now);
                self.combined_timeline = timeline;
                self.timeline_index = index;
            },
            None => {},
        }
    }

    /// The range that the temperature, the wet-bulb-globe temperature and
    /// the apparent temperature share on a timeline.
    pub fn get_unified_temp_range(&self, timeline: &Vec<WeatherDataPoint>) -> (range: Option<
        ValueRange,
    >)
        requires
            all_wf(timeline@),
        ensures
            range == range_of(temperature_family(timeline@)),
            range is Some ==> range.unwrap().wf(),
            forall|i: int|
                0 <= i < temperature_family(timeline@).len() && (#[trigger] temperature_family(
                    timeline@,
                )[i]) is Some ==> range.unwrap().min < temperature_family(timeline@)[i].unwrap()
                    < range.unwrap().max,
    {
        unified_temperature_range(timeline)
    }

    /// What a point says of an element, with the precipitation tables of the
    /// answer held.
    pub fn get_element_value_for_scale(
        &self,
        point: &WeatherDataPoint,
        element: &WeatherElement,
    ) -> (value: Option<i64>)
        requires
            self.wf(),
            point.wf(),
        ensures
            value == metric(*point, *element, self.hourly(), self.six_hourly()),
            value_ok(value),
    {
        match &self.weather_data {
            Some(weather) => metric_value(
                point,
                *element,
                &weather.forecasts_precip_1hr,
                &weather.forecasts_precip_6hr,
            ),
            None => {
                let no_rows: Vec<ForecastPrecip> = Vec::new();
                assert(no_rows@ =~= Seq::empty());
                metric_value(point, *element, &no_rows, &no_rows)
            },
        }
    }

    /// The values of the six labels of the temperature scale, from the top
    /// down; none where the timeline gives the scale no range.
    pub fn create_temp_scale(&self, timeline: &Vec<WeatherDataPoint>) -> (ticks: Option<Vec<i64>>)
        requires
            all_wf(timeline@),
        ensures
            match range_of(temperature_family(timeline@)) {
                Some(range) => ticks is Some && ticks.unwrap().len() == TICK_INTERVALS + 1
                    && forall|step: int|
                    0 <= step <= TICK_INTERVALS ==> #[trigger] ticks.unwrap()[step] == tick(
                        range,
                        step,
                    ),
                None => ticks is None,
            },
    {
        match unified_temperature_range(timeline) {
            Some(range) => Some(scale_ticks(&range)),
            None => None,
        }
    }

    /// The values of the six labels of the scale of an element, from the top
    /// down; none for the temperature, the wet-bulb-globe temperature and
    /// the apparent temperature, which are drawn on the shared scale and
    /// read off the temperature scale, and none where the element has no
    /// value on the timeline.
    pub fn create_element_scale(
        &self,
        timeline: &Vec<WeatherDataPoint>,
        element: &WeatherElement,
    ) -> (ticks: Option<Vec<i64>>)
        requires
            self.wf(),
            all_wf(timeline@),
        ensures
            match (if in_temperature_family(*element) {
                None
            } else {
                range_of(metrics_of(timeline@, *element, self.hourly(), self.six_hourly()))
            }) {
                Some(range) => ticks is Some && ticks.unwrap().len() == TICK_INTERVALS + 1
                    && forall|step: int|
                    0 <= step <= TICK_INTERVALS ==> #[trigger] ticks.unwrap()[step] == tick(
                        range,
                        step,
                    ),
                None => ticks is None,
            },
    {
        match *element {
            WeatherElement::Temperature => {
                return None;
            },
            WeatherElement::WBGT => {
                return None;
            },
            WeatherElement::ApparentTemperature => {
                return None;
            },
            _ => {},
        }
        let range: Option<ValueRange> = match &self.weather_data {
            Some(weather) => element_range(
                timeline,
                *element,
                &weather.forecasts_precip_1hr,
                &weather.forecasts_precip_6hr,
            ),
            None => {
                let no_rows: Vec<ForecastPrecip> = Vec::new();
                assert(no_rows@ =~= Seq::empty());
                element_range(timeline, *element, &no_rows, &no_rows)
            },
        };
        match range {
            Some(range) => Some(scale_ticks(&range)),
            None => None,
        }
    }

    /// Selects the point before the selected one, if there is one.
    pub fn select_previous(&mut self)
        ensures
            final(self).timeline_index == stepped_back(old(self).timeline_index as int),
            final(self).selected_weather_element == old(self).selected_weather_element,
            final(self).keeps_request(old(self)),
            final(self).keeps_data(old(self)),
            final(self).keeps_inputs(old(self)),
            old(self).selection_ok() ==> final(self).selection_ok(),
    {
        if self.timeline_index > 0 {
            self.timeline_index = self.timeline_index - 1;
        }
    }

    /// Selects the point after the selected one, if there is one.
    pub fn select_next(&mut self)
        ensures
            final(self).timeline_index == stepped_forward(
                old(self).timeline_index as int,
                old(self).combined_timeline.len() as int,
            ),
            final(self).selected_weather_element == old(self).selected_weather_element,
            final(self).keeps_request(old(self)),
            final(self).keeps_data(old(self)),
            final(self).keeps_inputs(old(self)),
            old(self).selection_ok() ==> final(self).selection_ok(),
    {
        let count: usize = self.combined_timeline.len();
        if count > 0 && self.timeline_index < count - 1 {
            self.timeline_index = self.timeline_index + 1;
        }
    }

    /// Selects the point nearest in time to `now`.
    pub fn select_nearest_to_now(&mut self, now: i64)
        ensures
            final(self).timeline_index == nearest_of(
                times_of(old(self).combined_timeline@),
                now as int,
            ),
            final(self).selected_weather_element == old(self).selected_weather_element,
            final(self).keeps_request(old(self)),
            final(self).keeps_data(old(self)),
            final(self).keeps_inputs(old(self)),
            final(self).selection_ok(),
    {
        self.timeline_index = nearest_index(&self.combined_timeline, now);
    }

    /// Selects the point with the given index, if the timeline has it.
    pub fn select_index(&mut self, index: usize)
        ensures
            final(self).timeline_index == picked(
                old(self).timeline_index as int,
                index as int,
                old(self).combined_timeline.len() as int,
            ),
            final(self).selected_weather_element == old(self).selected_weather_element,
            final(self).keeps_request(old(self)),
            final(self).keeps_data(old(self)),
            final(self).keeps_inputs(old(self)),
            old(self).selection_ok() ==> final(self).selection_ok(),
    {
        if index < self.combined_timeline.len() {
            self.timeline_index = index;
        }
    }

    /// The command that centres the selected point in the viewport.
    pub fn scroll_to_selection(&self) -> (command: Command)
        ensures
            command == scroll_command(self.combined_timeline@, self.timeline_index as int),
    {
        match CoordinateMapper::new(&self.combined_timeline, CANVAS_WIDTH) {
            Some(mapper) => match mapper.autoscroll_offset(
                &self.combined_timeline,
                self.timeline_index,
                VIEWPORT_WIDTH,
            ) {
                Some(offset) => Command::ScrollTo(offset),
                None => Command::Idle,
            },
            None => Command::Idle,
        }
    }

    /// Takes a message in: changes the state as the message asks and says
    /// what is to be done next. `now` is the time at which the message came.
    pub fn update(&mut self, message: Message, now: i64) -> (command: Command)
        requires
            old(self).wf(),
            message.wf(),
        ensures
            final(self).wf(),
            old(self).selection_ok() ==> final(self).selection_ok(),
            match message {
                Message::FetchWeather(city, lat, lon) => {
                    &&& final(self).current_city == city
                    &&& final(self).loading
                    &&& final(self).error is None
                    &&& final(self).keeps_data(old(self))
                    &&& final(self).keeps_inputs(old(self))
                    &&& final(self).keeps_selection(old(self))
                    &&& command == (Command::Fetch { lat, lon })
                },
                Message::WeatherFetched(Ok(data)) => {
                    &&& !final(self).loading
                    &&& final(self).error is None
                    &&& final(self).weather_data == Some(data)
                    &&& final(self).last_updated == Some(now)
                    &&& final(self).combined_timeline@ == merged(
                        data.observations_instant@,
                        data.forecasts_instant@,
                    )
                    &&& final(self).timeline_index == nearest_of(
                        times_of(final(self).combined_timeline@),
                        now as int,
                    )
                    &&& final(self).should_scroll_to_now == (final(self).combined_timeline.len()
                        == 0)
                    &&& final(self).current_city == old(self).current_city
                    &&& final(self).keeps_inputs(old(self))
                    &&& final(self).selected_weather_element == old(self).selected_weather_element
                    &&& command == if final(self).combined_timeline.len() == 0 {
                        Command::Idle
                    } else {
                        scroll_command(
                            final(self).combined_timeline@,
                            final(self).timeline_index as int,
                        )
                    }
                },
                Message::WeatherFetched(Err(error)) => {
                    &&& !final(self).loading
                    &&& final(self).error == Some(error)
                    &&& final(self).weather_data is None
                    &&& final(self).last_updated is None
                    &&& final(self).combined_timeline@ == Seq::<WeatherDataPoint>::empty()
                    &&& final(self).should_scroll_to_now == old(self).should_scroll_to_now
                    &&& final(self).current_city == old(self).current_city
                    &&& final(self).keeps_inputs(old(self))
                    &&& final(self).keeps_selection(old(self))
                    &&& command == Command::Idle
                },
                Message::LatInputChanged(value) => {
                    &&& final(self).lat_input == value
                    &&& final(self).lon_input == old(self).lon_input
                    &&& final(self).keeps_request(old(self))
                    &&& final(self).keeps_data(old(self))
                    &&& final(self).keeps_selection(old(self))
                    &&& command == Command::Idle
                },
                Message::LonInputChanged(value) => {
                    &&& final(self).lon_input == value
                    &&& final(self).lat_input == old(self).lat_input
                    &&& final(self).keeps_request(old(self))
                    &&& final(self).keeps_data(old(self))
                    &&& final(self).keeps_selection(old(self))
                    &&& command == Command::Idle
                },
                Message::FetchCustomLocation(Some(place)) => {
                    &&& final(self).keeps_data(old(self))
                    &&& final(self).keeps_inputs(old(self))
                    &&& final(self).keeps_selection(old(self))
                    &&& if on_globe(place.lat as int, place.lon as int) {
                        &&& final(self).current_city == place.label
                        &&& final(self).loading
                        &&& final(self).error is None
                        &&& command == (Command::Fetch { lat: place.lat, lon: place.lon })
                    } else {
                        &&& final(self).current_city == old(self).current_city
                        &&& final(self).loading == old(self).loading
                        &&& final(self).error is Some
                        &&& final(self).error.unwrap()@ == off_globe_text()
                        &&& command == Command::Idle
                    }
                },
                Message::FetchCustomLocation(None) => {
                    &&& final(self).keeps_data(old(self))
                    &&& final(self).keeps_inputs(old(self))
                    &&& final(self).keeps_selection(old(self))
                    &&& final(self).current_city == old(self).current_city
                    &&& final(self).loading == old(self).loading
                    &&& final(self).error is Some
                    &&& final(self).error.unwrap()@ == not_numeric_text()
                    &&& command == Command::Idle
                },
                Message::PreviousHour => {
                    &&& final(self).timeline_index == stepped_back(old(self).timeline_index as int)
                    &&& final(self).selected_weather_element == old(self).selected_weather_element
                    &&& final(self).keeps_request(old(self))
                    &&& final(self).keeps_data(old(self))
                    &&& final(self).keeps_inputs(old(self))
                    &&& command == Command::Idle
                },
                Message::NextHour => {
                    &&& final(self).timeline_index == stepped_forward(
                        old(self).timeline_index as int,
                        old(self).combined_timeline.len() as int,
                    )
                    &&& final(self).selected_weather_element == old(self).selected_weather_element
                    &&& final(self).keeps_request(old(self))
                    &&& final(self).keeps_data(old(self))
                    &&& final(self).keeps_inputs(old(self))
                    &&& command == Command::Idle
                },
                Message::GoToNow => {
                    &&& final(self).timeline_index == nearest_of(
                        times_of(old(self).combined_timeline@),
                        now as int,
                    )
                    &&& final(self).selected_weather_element == old(self).selected_weather_element
                    &&& final(self).keeps_request(old(self))
                    &&& final(self).keeps_data(old(self))
                    &&& final(self).keeps_inputs(old(self))
                    &&& command == if old(self).combined_timeline.len() == 0 {
                        Command::Idle
                    } else {
                        scroll_command(
                            old(self).combined_timeline@,
                            final(self).timeline_index as int,
                        )
                    }
                },
                Message::MeteogramClicked(index) => {
                    &&& final(self).timeline_index == picked(
                        old(self).timeline_index as int,
                        index as int,
                        old(self).combined_timeline.len() as int,
                    )
                    &&& final(self).selected_weather_element == old(self).selected_weather_element
                    &&& final(self).keeps_request(old(self))
                    &&& final(self).keeps_data(old(self))
                    &&& final(self).keeps_inputs(old(self))
                    &&& command == Command::Idle
                },
                Message::SelectWeatherElement(element) => {
                    &&& final(self).selected_weather_element == element
                    &&& final(self).timeline_index == old(self).timeline_index
                    &&& final(self).keeps_request(old(self))
                    &&& final(self).keeps_data(old(self))
                    &&& final(self).keeps_inputs(old(self))
                    &&& command == Command::Idle
                },
            },
    {
        match message {
            Message::FetchWeather(city, lat, lon) => {
                self.current_city = city;
                self.loading = true;
                self.error = None;
                Command::Fetch { lat, lon }
            },
            Message::WeatherFetched(result) => {
                self.loading = false;
                match result {
                    Ok(data) => {
                        self.weather_data = Some(data);
                        self.error = None;
                        self.last_updated = Some(now);
                        self.build_timeline(now);
                        self.should_scroll_to_now = true;
                    },
                    Err(error) => {
                        self.error = Some(error);
                        self.weather_data = None;
                        self.combined_timeline = Vec::new();
                        self.last_updated = None;
                    },
                }
                if self.should_scroll_to_now && self.combined_timeline.len() > 0 {
                    self.should_scroll_to_now = false;
                    self.scroll_to_selection()
                } else {
                    Command::Idle
                }
            },
            Message::LatInputChanged(value) => {
                self.lat_input = value;
                Command::Idle
            },
            Message::LonInputChanged(value) => {
                self.lon_input = value;
                Command::Idle
            },
            Message::FetchCustomLocation(parsed) => {
                match parsed {
                    Some(place) => {
                        if place.lat >= -MAX_LATITUDE && place.lat <= MAX_LATITUDE && place.lon
                            >= -MAX_LONGITUDE && place.lon <= MAX_LONGITUDE {
                            let lat: i64 = place.lat;
                            let lon: i64 = place.lon;
                            self.current_city = place.label;
                            self.loading = true;
                            self.error = None;
                            Command::Fetch { lat, lon }
                        } else {
                            self.error = Some(
                                String::from_str(
                                    "Invalid coordinates: Latitude must be between -90 and 90, Longitude between -180 and 180",
                                ),
                            );
                            Command::Idle
                        }
                    },
                    None => {
                        self.error = Some(
                            String::from_str(
                                "Invalid input: Please enter valid numeric coordinates",
                            ),
                        );
                        Command::Idle
                    },
                }
            },
            Message::PreviousHour => {
                self.select_previous();
                Command::Idle
            },
            Message::NextHour => {
                self.select_next();
                Command::Idle
            },
            Message::GoToNow => {
                self.select_nearest_to_now(now);
                if self.combined_timeline.len() > 0 {
                    self.scroll_to_selection()
                } else {
                    Command::Idle
                }
            },
            Message::MeteogramClicked(index) => {
                self.select_index(index);
                Command::Idle
            },
            Message::SelectWeatherElement(element) => {
                self.selected_weather_element = element;
                Command::Idle
            },
        }
    }
}

} // verus!
