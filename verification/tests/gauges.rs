use bme280_exporter::channel::Channel;
use bme280_exporter::reading::Reading;
use bme280_exporter::registry::Registry;
use bme280_exporter::sample::Sample;

fn sample(value: f32) -> Option<Sample> {
    Some(Sample::parse(&format!("{}", f64::from(value))).unwrap())
}

fn value_of(registry: &Registry, channel: Channel) -> Option<String> {
    registry.get(channel).map(|sample| sample.as_str().to_string())
}

const UNSET: &str = "# HELP temperature Temperature in °C\n\
# TYPE temperature gauge\n\
\n\
# HELP pressure Air pressure in mPa\n\
# TYPE pressure gauge\n\
\n\
# HELP humidity Relative humidity in %\n\
# TYPE humidity gauge\n\
\n";

#[test]
fn a_new_registry_has_no_gauge_set() {
    let registry = Registry::new();
    assert_eq!(value_of(&registry, Channel::Temperature), None);
    assert_eq!(value_of(&registry, Channel::Pressure), None);
    assert_eq!(value_of(&registry, Channel::Humidity), None);
    let registry = Registry::default();
    assert_eq!(value_of(&registry, Channel::Temperature), None);
    assert_eq!(registry.render(), UNSET);
}

#[test]
fn render_before_any_reading_gives_the_metadata_only() {
    let registry = Registry::new();
    assert_eq!(registry.render(), UNSET);
    assert_eq!(registry.render(), UNSET);
}

#[test]
fn render_shows_every_gauge_that_is_set() {
    let mut registry = Registry::new();
    registry.apply(Reading::new(sample(22.5), sample(101325.0), sample(45.0)));
    assert_eq!(
        registry.render(),
        "# HELP temperature Temperature in °C\n\
# TYPE temperature gauge\n\
temperature 22.5\n\
\n\
# HELP pressure Air pressure in mPa\n\
# TYPE pressure gauge\n\
pressure 101325\n\
\n\
# HELP humidity Relative humidity in %\n\
# TYPE humidity gauge\n\
humidity 45\n\
\n"
    );
}

#[test]
fn render_leaves_out_the_sample_line_of_an_unset_gauge() {
    let mut registry = Registry::new();
    registry.apply(Reading::new(None, sample(99000.0), None));
    assert_eq!(
        registry.render(),
        "# HELP temperature Temperature in °C\n\
# TYPE temperature gauge\n\
\n\
# HELP pressure Air pressure in mPa\n\
# TYPE pressure gauge\n\
pressure 99000\n\
\n\
# HELP humidity Relative humidity in %\n\
# TYPE humidity gauge\n\
\n"
    );
}

#[test]
fn apply_overwrites_each_channel_that_is_present() {
    let mut registry = Registry::new();
    registry.apply(Reading::new(sample(22.0), sample(100000.0), sample(40.0)));
    registry.apply(Reading::new(sample(-3.25), sample(100100.0), sample(41.5)));
    assert_eq!(value_of(&registry, Channel::Temperature), Some(String::from("-3.25")));
    assert_eq!(value_of(&registry, Channel::Pressure), Some(String::from("100100")));
    assert_eq!(value_of(&registry, Channel::Humidity), Some(String::from("41.5")));
    let text = registry.render();
    assert!(text.contains("\ntemperature -3.25\n"));
    assert!(text.contains("\npressure 100100\n"));
    assert!(text.contains("\nhumidity 41.5\n"));
    assert!(!text.contains("temperature 22\n"));
}

#[test]
fn apply_keeps_the_value_of_an_absent_channel() {
    let mut registry = Registry::new();
    registry.apply(Reading::new(sample(22.0), sample(100000.0), sample(40.0)));
    registry.apply(Reading::new(None, None, sample(41.0)));
    assert_eq!(value_of(&registry, Channel::Temperature), Some(String::from("22")));
    assert_eq!(value_of(&registry, Channel::Pressure), Some(String::from("100000")));
    assert_eq!(value_of(&registry, Channel::Humidity), Some(String::from("41")));
    let text = registry.render();
    assert!(text.contains("\ntemperature 22\n"));
    assert!(text.contains("\npressure 100000\n"));
    assert!(text.contains("\nhumidity 41\n"));
}

#[test]
fn apply_of_an_empty_reading_changes_nothing() {
    let mut registry = Registry::new();
    registry.apply(Reading::new(None, None, None));
    assert_eq!(registry.render(), UNSET);
    registry.apply(Reading::new(sample(1.5), None, None));
    let before = registry.render();
    registry.apply(Reading::new(None, None, None));
    assert_eq!(registry.render(), before);
}

#[test]
fn an_absent_channel_of_an_unset_gauge_stays_unset() {
    let mut registry = Registry::new();
    registry.apply(Reading::new(sample(1.5), None, None));
    assert_eq!(value_of(&registry, Channel::Pressure), None);
    assert_eq!(value_of(&registry, Channel::Humidity), None);
    assert!(!registry.render().contains("pressure 0"));
}

#[test]
fn a_value_is_rendered_as_it_was_given() {
    let mut registry = Registry::new();
    let odd = Sample::parse("21.3700008392334").unwrap();
    let nan = Sample::parse("NaN").unwrap();
    let low = Sample::parse("-inf").unwrap();
    registry.apply(Reading::new(Some(odd), Some(nan), Some(low)));
    let text = registry.render();
    assert!(text.contains("\ntemperature 21.3700008392334\n"));
    assert!(text.contains("\npressure NaN\n"));
    assert!(text.contains("\nhumidity -inf\n"));
}

#[test]
fn every_rendered_line_is_empty_a_comment_or_a_sample() {
    let mut registry = Registry::new();
    registry.apply(Reading::new(sample(22.5), None, sample(45.0)));
    let text = registry.render();
    assert!(text.ends_with('\n'));
    for line in text.lines() {
        if line.is_empty() || line.starts_with("# ") {
            continue;
        }
        let (name, value) = line.split_once(' ').unwrap();
        assert!(matches!(name, "temperature" | "pressure" | "humidity"));
        assert!(Sample::parse(value).is_some());
    }
}

#[test]
fn a_reading_gives_its_channels() {
    let reading = Reading::new(sample(22.5), None, sample(45.0));
    assert_eq!(reading.get(Channel::Temperature).map(|s| s.as_str()), Some("22.5"));
    assert_eq!(reading.get(Channel::Pressure).map(|s| s.as_str()), None);
    assert_eq!(reading.get(Channel::Humidity).map(|s| s.as_str()), Some("45"));
    let copy = reading.clone();
    assert_eq!(copy, reading);
}
