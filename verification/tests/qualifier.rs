use cs104_session::QualifierOfInterrogation;
use cs104_session::IEC60870_QOI_STATION;

fn all_variants() -> Vec<QualifierOfInterrogation> {
    vec![
        QualifierOfInterrogation::Station,
        QualifierOfInterrogation::Group1,
        QualifierOfInterrogation::Group2,
        QualifierOfInterrogation::Group3,
        QualifierOfInterrogation::Group4,
        QualifierOfInterrogation::Group5,
        QualifierOfInterrogation::Group6,
        QualifierOfInterrogation::Group7,
        QualifierOfInterrogation::Group8,
        QualifierOfInterrogation::Group9,
        QualifierOfInterrogation::Group10,
        QualifierOfInterrogation::Group11,
        QualifierOfInterrogation::Group12,
        QualifierOfInterrogation::Group13,
        QualifierOfInterrogation::Group14,
        QualifierOfInterrogation::Group15,
        QualifierOfInterrogation::Group16,
    ]
}

#[test]
fn qualifier_codes_are_the_reserved_constants() {
    let variants = all_variants();
    assert_eq!(variants.len(), 17);
    for (i, q) in variants.iter().enumerate() {
        assert_eq!(q.as_u8(), 20 + i as u8);
    }
}

#[test]
fn qualifier_codes_are_distinct_and_nonzero() {
    let codes: Vec<u8> = all_variants().iter().map(|q| q.as_u8()).collect();
    for (i, a) in codes.iter().enumerate() {
        assert_ne!(*a, 0);
        for (j, b) in codes.iter().enumerate() {
            if i != j {
                assert_ne!(*a, *b);
            }
        }
    }
}

#[test]
fn station_maps_to_the_station_constant() {
    assert_eq!(QualifierOfInterrogation::Station.as_u8(), IEC60870_QOI_STATION);
    assert_eq!(IEC60870_QOI_STATION, 20);
}
