//! The registry of forecast providers.

use vstd::prelude::*;

verus! {

/// The forecast providers that the service knows.
#[derive(Debug, Clone, Copy, PartialEq, Eq, Structural)]
pub enum AvailableService {
    OpenWeatherMap,
    WeatherApi,
}

impl AvailableService {
    /// Every provider, in the order of declaration.
    pub open spec fn all() -> Seq<AvailableService> {
        seq![AvailableService::OpenWeatherMap, AvailableService::WeatherApi]
    }

    /// The canonical name of a provider.
    pub open spec fn name(self) -> Seq<char> {
        match self {
            AvailableService::OpenWeatherMap => "OpenWeatherMap"@,
            AvailableService::WeatherApi => "WeatherApi"@,
        }
    }

    /// The provider that `name` spells, letter for letter.
    pub open spec fn named(name: Seq<char>) -> Option<AvailableService> {
        if name == AvailableService::OpenWeatherMap.name() {
            Some(AvailableService::OpenWeatherMap)
        } else if name == AvailableService::WeatherApi.name() {
            Some(AvailableService::WeatherApi)
        } else {
            None
        }
    }

    /// Lists the providers in a fixed order, that of their declaration.
    pub fn iter() -> (services: Vec<AvailableService>)
        ensures
            services@ == Self::all(),
    {
        let mut services: Vec<AvailableService> = Vec::new();
        services.push(AvailableService::OpenWeatherMap);
        services.push(AvailableService::WeatherApi);
        services
    }

    /// Writes the provider's canonical name.
    pub fn to_string(&self) -> (name: String)
        ensures
            name@ == self.name(),
    {
        match self {
            AvailableService::OpenWeatherMap => String::from_str("OpenWeatherMap"),
            AvailableService::WeatherApi => String::from_str("WeatherApi"),
        }
    }

    /// Reads a provider's name. Only the canonical spelling is taken: case counts
    /// and nothing is trimmed.
    pub fn from_str(input: &str) -> (service: Result<AvailableService, ()>)
        ensures
            service == match Self::named(input@) {
                Some(found) => Ok::<AvailableService, ()>(found),
                None => Err::<AvailableService, ()>(()),
            },
    {
        let input = String::from_str(input);
        if input == String::from_str("OpenWeatherMap") {
            Ok(AvailableService::OpenWeatherMap)
        } else if input == String::from_str("WeatherApi") {
            Ok(AvailableService::WeatherApi)
        } else {
            Err(())
        }
    }

    /// Reading a provider's canonical name gives that provider back.
    pub proof fn lemma_name_reads_back(service: AvailableService)
        ensures
            Self::named(service.name()) == Some(service),
    {
        reveal_strlit("OpenWeatherMap");
        reveal_strlit("WeatherApi");
        assert("OpenWeatherMap"@.len() != "WeatherApi"@.len());
    }

    /// The list of providers names each provider once.
    pub proof fn lemma_all_lists_each_once(service: AvailableService)
        ensures
            Self::all().len() == 2,
            Self::all()[0] != Self::all()[1],
            Self::all()[0] == service || Self::all()[1] == service,
    {
    }

    /// A provider is read from its canonical name only.
    pub proof fn lemma_read_name_is_canonical(name: Seq<char>, service: AvailableService)
        requires
            Self::named(name) == Some(service),
        ensures
            name == service.name(),
    {
    }
}

} // verus!
