use bme280_exporter::channel::Channel;
use bme280_exporter::config::{
    Filter, Oversampling, SamplingConfiguration, SensorMode, DEFAULT_HOST, DEFAULT_POLL_BUDGET,
    DEFAULT_PORT, METRICS_PATH, POLL_INTERVAL_MS, SENSOR_ADDRESS,
};

#[test]
fn the_standard_configuration_is_the_exporters() {
    let configuration = SamplingConfiguration::standard();
    assert_eq!(configuration.temperature, Oversampling::X8);
    assert_eq!(configuration.pressure, Oversampling::X8);
    assert_eq!(configuration.humidity, Oversampling::X8);
    assert_eq!(configuration.filter, Filter::X4);
    assert_eq!(configuration.mode, SensorMode::Forced);
}

#[test]
fn oversampling_is_looked_up_by_channel() {
    let configuration = SamplingConfiguration {
        temperature: Oversampling::X1,
        pressure: Oversampling::Skip,
        humidity: Oversampling::X16,
        filter: Filter::Off,
        mode: SensorMode::Continuous,
    };
    assert_eq!(configuration.oversampling(Channel::Temperature), Oversampling::X1);
    assert_eq!(configuration.oversampling(Channel::Pressure), Oversampling::Skip);
    assert_eq!(configuration.oversampling(Channel::Humidity), Oversampling::X16);
}

#[test]
fn oversampling_factors() {
    assert_eq!(Oversampling::Skip.factor(), 0);
    assert_eq!(Oversampling::X1.factor(), 1);
    assert_eq!(Oversampling::X2.factor(), 2);
    assert_eq!(Oversampling::X4.factor(), 4);
    assert_eq!(Oversampling::X8.factor(), 8);
    assert_eq!(Oversampling::X16.factor(), 16);
}

#[test]
fn filter_coefficients() {
    assert_eq!(Filter::Off.coefficient(), 0);
    assert_eq!(Filter::X2.coefficient(), 2);
    assert_eq!(Filter::X4.coefficient(), 4);
    assert_eq!(Filter::X8.coefficient(), 8);
    assert_eq!(Filter::X16.coefficient(), 16);
}

#[test]
fn defaults_of_the_endpoint() {
    assert_eq!(DEFAULT_HOST, [127, 0, 0, 1]);
    assert_eq!(DEFAULT_PORT, 3000);
    assert_eq!(METRICS_PATH, "/metrics");
    assert_eq!(SENSOR_ADDRESS, 0x77);
    assert_eq!(DEFAULT_POLL_BUDGET, 10);
    assert_eq!(POLL_INTERVAL_MS, 10);
}

#[test]
fn gauge_names_and_descriptions() {
    assert_eq!(Channel::Temperature.name(), "temperature");
    assert_eq!(Channel::Pressure.name(), "pressure");
    assert_eq!(Channel::Humidity.name(), "humidity");
    assert_eq!(Channel::Temperature.description(), "Temperature in °C");
    assert_eq!(Channel::Pressure.description(), "Air pressure in mPa");
    assert_eq!(Channel::Humidity.description(), "Relative humidity in %");
}
