use aemet_data::dataset::normalized_parameter_list;
use aemet_data::normalize::{split_by_parameters, take_parameter};
use aemet_data::records::{decode_rows, read_records, read_table};
use aemet_data::{
    AggregateData, AggregateDataProcessing, AggregateParameter, AggregateRecords, AggregateTable,
    CardinalPoint, Celsius, CoordinateError, Decimal, Latitude, Longitude, LongitudeDirection,
    PerYear, RecordKind, Station, Table, TableError, WithDate, WithDateError, YearlyData,
    YearlyRecords, F1, F4,
};

fn texts(items: &[&str]) -> Vec<String> {
    items.iter().map(|s| s.to_string()).collect()
}

fn empty_year<T>() -> PerYear<T> {
    PerYear {
        january: None,
        february: None,
        march: None,
        april: None,
        may: None,
        june: None,
        july: None,
        august: None,
        september: None,
        october: None,
        november: None,
        december: None,
        yearly: None,
    }
}

fn aggregate(station: &str, parameter: AggregateParameter) -> F4<Celsius> {
    F4 { station_id: station.to_string(), parameter, yearly: empty_year() }
}

fn batch() -> Vec<F4<Celsius>> {
    let mut v = Vec::new();
    for station in ["A", "B", "C"] {
        v.push(aggregate(station, AggregateParameter::Min));
        v.push(aggregate(station, AggregateParameter::Max));
        v.push(aggregate(station, AggregateParameter::Average));
    }
    v
}

fn dataset(year: &str, tables: Vec<AggregateTable>) -> YearlyData {
    YearlyData {
        year: year.to_string(),
        is_aggregate: None,
        stations: Vec::new(),
        tables: Vec::new(),
        aggregate: AggregateData { from_year: 1981, to_year: 2010, tables },
    }
}

#[test]
fn it_works() {
    // The datasets as the data directory gives them, completed in full mode.
    let data = vec![
        dataset("2016", Vec::new()),
        dataset("2017", Vec::new()),
        dataset("2018", Vec::new()),
    ];
    let all = YearlyData::all_from_manifest_dir(data, AggregateDataProcessing::Full);
    assert_eq!(all.len(), 3);
}

#[test]
fn cardinal_point_round_trip() {
    for (d, m, s) in [(0, 0, 0), (1, 2, 3), (40, 25, 59), (99, 99, 99), (9, 10, 90)] {
        let p = CardinalPoint::new(d, m, s).unwrap();
        let text = p.to_string();
        assert_eq!(text.len(), 6);
        let back = CardinalPoint::from_str(&text).unwrap();
        assert_eq!((back.degrees(), back.minutes(), back.seconds()), (d, m, s));
    }
    assert_eq!(CardinalPoint::new(1, 2, 3).unwrap().to_string(), "010203");
    assert!(CardinalPoint::new(100, 0, 0).is_none());
}

#[test]
fn cardinal_point_rejections() {
    assert_eq!(CardinalPoint::from_str("12A456").unwrap_err(), CoordinateError::InvalidComponent);
    assert_eq!(CardinalPoint::from_str("+1+2+3").unwrap_err(), CoordinateError::InvalidComponent);
    assert_eq!(CardinalPoint::from_str("12345").unwrap_err(), CoordinateError::InvalidLength);
    assert_eq!(CardinalPoint::from_str("1234567").unwrap_err(), CoordinateError::InvalidLength);
    assert_eq!(CardinalPoint::from_str("").unwrap_err(), CoordinateError::InvalidLength);
    let p = CardinalPoint::from_str("402559").unwrap();
    assert_eq!((p.degrees(), p.minutes(), p.seconds()), (40, 25, 59));
}

#[test]
fn longitude_and_latitude_round_trip() {
    for direction in [LongitudeDirection::East, LongitudeDirection::West] {
        let l = Longitude { point: CardinalPoint::new(3, 41, 7).unwrap(), direction };
        let text = l.encode();
        let back = Longitude::decode(&text).unwrap();
        assert_eq!(back.direction, direction);
        assert_eq!(back.point.to_string(), "034107");
    }
    let east = Longitude { point: CardinalPoint::new(3, 41, 7).unwrap(), direction: LongitudeDirection::East };
    assert_eq!(east.encode(), "0341071");
    let west = Longitude::decode("0012342").unwrap();
    assert_eq!(west.direction, LongitudeDirection::West);
    let lat = Latitude::decode("402559").unwrap();
    assert_eq!(lat.encode(), "402559");
    assert_eq!(Latitude::decode("40255").unwrap_err(), CoordinateError::InvalidLength);
}

#[test]
fn longitude_rejections() {
    assert_eq!(Longitude::decode("0123456").unwrap_err(), CoordinateError::InvalidDirection);
    assert_eq!(Longitude::decode("012345").unwrap_err(), CoordinateError::InvalidLength);
    assert_eq!(Longitude::decode("01X3451").unwrap_err(), CoordinateError::InvalidComponent);
}

#[test]
fn with_date_decoding() {
    let w = WithDate::<Decimal>::decode("15.5(20170304)").unwrap();
    assert_eq!(w.value, Decimal { mantissa: 155, scale: 1 });
    assert_eq!(w.date, "20170304");
    assert_eq!(WithDate::<Decimal>::decode("15.5").unwrap_err(), WithDateError::MissingDate);
    assert_eq!(WithDate::<Decimal>::decode("15.5(2017").unwrap_err(), WithDateError::MissingClosingParen);
    assert_eq!(WithDate::<Decimal>::decode("15.5(2017)x").unwrap_err(), WithDateError::TrailingContent);
    assert_eq!(WithDate::<Decimal>::decode("(2017)").unwrap_err(), WithDateError::EmptyValue);
    assert_eq!(WithDate::<Decimal>::decode("abc(2017)").unwrap_err(), WithDateError::EmptyValue);
    let c = WithDate::<Celsius>::decode("-3.2(20180115)").unwrap();
    assert_eq!(c.value, Celsius(Decimal { mantissa: -32, scale: 1 }));
    assert_eq!(c.date, "20180115");
}

#[test]
fn decimal_cells() {
    assert_eq!(aemet_data::parse_decimal("12"), Some(Decimal { mantissa: 12, scale: 0 }));
    assert_eq!(aemet_data::parse_decimal("-0.25"), Some(Decimal { mantissa: -25, scale: 2 }));
    assert_eq!(aemet_data::parse_decimal("+4.0"), Some(Decimal { mantissa: 40, scale: 1 }));
    assert_eq!(aemet_data::parse_decimal(".5"), Some(Decimal { mantissa: 5, scale: 1 }));
    assert_eq!(aemet_data::parse_decimal(""), None);
    assert_eq!(aemet_data::parse_decimal("."), None);
    assert_eq!(aemet_data::parse_decimal("1.2.3"), None);
    assert_eq!(aemet_data::parse_decimal("1e5"), None);
    assert_eq!(
        aemet_data::parse_decimal("999999999999999999"),
        Some(Decimal { mantissa: 999999999999999999, scale: 0 })
    );
    assert_eq!(aemet_data::parse_decimal("1234567890123456789"), None);
}

#[test]
fn take_parameter_partitions_a_batch() {
    let mut records = batch();
    let average = take_parameter(&mut records, AggregateParameter::Average);
    let ids: Vec<&str> = average.iter().map(|r| r.station_id.as_str()).collect();
    assert_eq!(ids, vec!["C", "B", "A"]);
    assert_eq!(records.len(), 6);
    assert!(records.iter().all(|r| r.parameter != AggregateParameter::Average));
}

#[test]
fn split_by_parameters_counts() {
    let params = vec![AggregateParameter::Min, AggregateParameter::Max, AggregateParameter::Average];
    let (outs, rest) = split_by_parameters(batch(), &params);
    assert_eq!(outs.len(), 3);
    assert_eq!(outs.iter().map(|o| o.len()).sum::<usize>(), 9);
    assert!(rest.is_empty());
    let only_min = vec![AggregateParameter::Min];
    let (outs, rest) = split_by_parameters(batch(), &only_min);
    assert_eq!(outs[0].len(), 3);
    assert_eq!(rest.len(), 6);
}

#[test]
fn normalizing_a_dataset() {
    let table = AggregateTable { kind: RecordKind::AverageTemperature, records: AggregateRecords::Celsius(batch()) };
    let data = vec![dataset("2017", vec![table])];
    let all = YearlyData::all_from_manifest_dir(data, AggregateDataProcessing::Normalize);
    assert_eq!(all.len(), 9);
    assert_eq!(all[0].year, "2017");
    assert!(all[0].aggregate.tables.is_empty());
    assert_eq!(all[1].year, "1981 - 2010 average (2017 dataset)");
    assert_eq!(all[1].is_aggregate.as_deref(), Some("2017"));
    match &all[1].tables[0].records {
        YearlyRecords::Celsius(v) => {
            let mut ids: Vec<&str> = v.iter().map(|r| r.station_id.as_str()).collect();
            ids.sort();
            assert_eq!(ids, vec!["A", "B", "C"]);
        }
        _ => panic!("wrong payload"),
    }
    assert_eq!(all[3].year, "1981 - 2010 minimum (2017 dataset)");
    assert_eq!(all[8].year, "1981 - 2010 maximum (2017 dataset)");
    let total: usize = all[1..]
        .iter()
        .map(|d| match &d.tables[0].records {
            YearlyRecords::Celsius(v) => v.len(),
            _ => 0,
        })
        .sum();
    assert_eq!(total, 9);
    assert_eq!(normalized_parameter_list().len(), 8);
}

#[test]
fn no_aggregates_are_dropped() {
    let table = AggregateTable { kind: RecordKind::AverageTemperature, records: AggregateRecords::Celsius(batch()) };
    let all = YearlyData::all_from_manifest_dir(vec![dataset("2016", vec![table])], AggregateDataProcessing::No);
    assert_eq!(all.len(), 1);
    assert!(all[0].aggregate.tables.is_empty());
}

#[test]
fn per_year_keeps_absent_months() {
    let header = texts(&["Indicativo", "julio", "agosto", "anual"]);
    let row = texts(&["1387", "", "21.5", "x"]);
    let p: PerYear<Celsius> = PerYear::from_row(&header, &row);
    assert!(p.july.is_none());
    assert_eq!(p.august, Some(Celsius(Decimal { mantissa: 215, scale: 1 })));
    assert!(p.yearly.is_none());
    assert!(p.january.is_none());
}

#[test]
fn reading_station_records() {
    let bytes = b"Indicativo;enero;julio;agosto\n1387;10.1;;21.5\n3195;-1.0;30.2;\n";
    let records: Vec<F1<Celsius>> = read_records(bytes).unwrap();
    assert_eq!(records.len(), 2);
    assert_eq!(records[0].station_id, "1387");
    assert!(records[0].yearly.july.is_none());
    assert_eq!(records[1].yearly.january, Some(Celsius(Decimal { mantissa: -10, scale: 1 })));
    let dated: Vec<F1<WithDate<Celsius>>> = read_records(b"Indicativo;enero\nX;3.5(20170102)\n").unwrap();
    assert_eq!(dated[0].yearly.january.as_ref().unwrap().date, "20170102");
}

#[test]
fn reading_aggregates_and_stations() {
    let bytes = "Indicativo;par\u{e1}metro;enero\n1387;Md;4.0\n1387;Q1;2.0\n".as_bytes();
    let records: Vec<F4<Celsius>> = read_records(bytes).unwrap();
    assert_eq!(records[0].parameter, AggregateParameter::Average);
    assert_eq!(records[1].parameter, AggregateParameter::Q1);
    let (f1, p) = F4::into_f1(read_records::<F4<Celsius>>(bytes).unwrap().remove(0));
    assert_eq!(f1.station_id, "1387");
    assert_eq!(p, AggregateParameter::Average);
    let bad = "Indicativo;par\u{e1}metro\n1387;Zz\n".as_bytes();
    assert_eq!(
        read_records::<F4<Celsius>>(bad).unwrap_err(),
        TableError::Row(0, aemet_data::RecordError::UnknownParameter)
    );
    let st = b"INDICATIVO;NOMBRE;PROVINCIA;MUNICIPIO;ALTITUD;LONGITUD;LATITUD;DATUM\n1387;A CORU\xc3\x91A;A CORU\xc3\x91A;A CORU\xc3\x91A;58;0082511;432157;ETRS89\n";
    let stations: Vec<Station> = read_records(st).unwrap();
    assert_eq!(stations[0].longitude.direction, LongitudeDirection::East);
    assert_eq!(stations[0].latitude.encode(), "432157");
    let bad_lon = b"INDICATIVO;NOMBRE;PROVINCIA;MUNICIPIO;ALTITUD;LONGITUD;LATITUD;DATUM\n1;a;b;c;5;0082519;432157;d\n";
    assert_eq!(
        read_records::<Station>(bad_lon).unwrap_err(),
        TableError::Row(
            0,
            aemet_data::RecordError::InvalidCoordinate(aemet_data::Field::Longitude, CoordinateError::InvalidDirection)
        )
    );
    assert_eq!(read_records::<Station>(b"a;b\n1;2;3\n").unwrap_err(), TableError::Malformed);
}

#[test]
fn tables_split_header_and_rows() {
    let t: Table = read_table(b"a;b\n1;2\n3;4\n").unwrap();
    assert_eq!(t.header, texts(&["a", "b"]));
    assert_eq!(t.rows.len(), 2);
    let empty = read_table(b"").unwrap();
    assert!(empty.header.is_empty() && empty.rows.is_empty());
    assert_eq!(
        decode_rows::<F1<Celsius>>(&t).unwrap_err(),
        TableError::Row(0, aemet_data::RecordError::MissingField(aemet_data::Field::StationId))
    );
}

#[test]
fn parameter_names() {
    assert_eq!(AggregateParameter::Q1.as_human_str(), "quintile 1");
    assert_eq!(AggregateParameter::StdDev.as_human_str(), "standard deviation");
    assert_eq!(RecordKind::MaxRain.file_prefix(), "P_MAX");
    assert_eq!(RecordKind::MaxRain.name(), "max_rain");
    assert_eq!(RecordKind::all().len(), 42);
}

fn monthly_tables(first: &[u8]) -> Vec<Vec<u8>> {
    let mut v = vec![first.to_vec()];
    for _ in 1..RecordKind::all().len() {
        v.push(b"Indicativo;enero\n1387;1.0\n".to_vec());
    }
    v
}

const STATIONS: &[u8] = b"INDICATIVO;NOMBRE;PROVINCIA;MUNICIPIO;ALTITUD;LONGITUD;LATITUD;DATUM\n1387;X;Y;Z;58;0082511;432157;ETRS89\n";

#[test]
fn loading_a_year() {
    let monthly = monthly_tables(b"Indicativo;enero;julio\n1387;10.5;\n");
    let d = YearlyData::from_csv(2017, STATIONS, &monthly, None).unwrap();
    assert_eq!(d.year, "2017");
    assert!(d.is_aggregate.is_none());
    assert_eq!(d.stations.len(), 1);
    assert_eq!(d.tables.len(), 42);
    assert_eq!(d.tables[0].kind, RecordKind::AverageTemperature);
    match &d.tables[0].records {
        YearlyRecords::Celsius(v) => {
            assert_eq!(v[0].yearly.january, Some(Celsius(Decimal { mantissa: 105, scale: 1 })));
            assert!(v[0].yearly.july.is_none());
        }
        _ => panic!("wrong payload"),
    }
    assert_eq!(d.aggregate.from_year, 0);
    let aggregates: Vec<Vec<u8>> = (0..42).map(|_| "Indicativo;par\u{e1}metro;enero\n1387;Md;4.0\n".as_bytes().to_vec()).collect();
    let d = YearlyData::from_csv(2016, STATIONS, &monthly, Some(&aggregates)).unwrap();
    assert_eq!((d.aggregate.from_year, d.aggregate.to_year), (1981, 2010));
    assert_eq!(d.aggregate.tables.len(), 42);
}

#[test]
fn loading_errors() {
    let monthly = monthly_tables(b"Indicativo;enero\n1;2\n");
    let bad_alt = b"INDICATIVO;NOMBRE;PROVINCIA;MUNICIPIO;ALTITUD;LONGITUD;LATITUD;DATUM\n1;X;Y;Z;high;0082511;432157;E\n";
    assert_eq!(
        YearlyData::from_csv(2017, bad_alt, &monthly, None).unwrap_err(),
        aemet_data::LoadError::Stations(TableError::Row(
            0,
            aemet_data::RecordError::InvalidNumber(aemet_data::Field::Altitude)
        ))
    );
    let missing_id = monthly_tables(b"enero\n2\n");
    assert_eq!(
        YearlyData::from_csv(2017, STATIONS, &missing_id, None).unwrap_err(),
        aemet_data::LoadError::Monthly(
            RecordKind::AverageTemperature,
            TableError::Row(0, aemet_data::RecordError::MissingField(aemet_data::Field::StationId))
        )
    );
    let mut aggregates: Vec<Vec<u8>> = (0..42).map(|_| "Indicativo;par\u{e1}metro\n1;Min\n".as_bytes().to_vec()).collect();
    aggregates[3] = b"Indicativo\n1\n".to_vec();
    assert_eq!(
        YearlyData::from_csv(2017, STATIONS, &monthly, Some(&aggregates)).unwrap_err(),
        aemet_data::LoadError::Aggregate(
            RecordKind::AbsoluteMaxTemperature,
            TableError::Row(0, aemet_data::RecordError::MissingField(aemet_data::Field::Parameter))
        )
    );
}
