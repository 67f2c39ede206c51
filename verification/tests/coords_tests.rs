use weather_exporter::coords::{format_coord_e4, Position};
use weather_exporter::fetch::build_forecast_url;
use weather_exporter::location::build_search_url;

#[test]
fn rounds_to_four_decimal_places() {
    // (59.91333, 10.73900) rounds to (59.9133, 10.7390).
    let p = Position { lat_e7: 599_133_300, lon_e7: 107_390_000 };
    assert_eq!(p.rounded(), (599_133, 107_390));
}

#[test]
fn rounds_halves_away_from_zero() {
    let p = Position { lat_e7: 1_500, lon_e7: -1_500 };
    assert_eq!(p.rounded(), (2, -2));
}

#[test]
fn rounding_keeps_exact_values() {
    let p = Position { lat_e7: 599_133_000, lon_e7: -107_390_000 };
    assert_eq!(p.rounded(), (599_133, -107_390));
}

#[test]
fn formats_with_four_decimals() {
    assert_eq!(format_coord_e4(599_133), "59.9133");
    assert_eq!(format_coord_e4(107_390), "10.7390");
    assert_eq!(format_coord_e4(0), "0.0000");
    assert_eq!(format_coord_e4(-5), "-0.0005");
    assert_eq!(format_coord_e4(-1_800_000), "-180.0000");
}

#[test]
fn forecast_url_uses_rounded_coordinates() {
    assert_eq!(
        build_forecast_url(599_133, 107_390),
        "https://api.met.no/weatherapi/locationforecast/2.0/compact?lat=59.9133&lon=10.7390"
    );
}

#[test]
fn search_url_percent_encodes_the_name() {
    assert_eq!(
        build_search_url("Oslo Centre"),
        "https://www.yr.no/api/v0/locations/search?q=Oslo%20Centre"
    );
    assert_eq!(
        build_search_url("Oslo"),
        "https://www.yr.no/api/v0/locations/search?q=Oslo"
    );
}
