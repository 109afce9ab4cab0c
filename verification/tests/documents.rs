use caliper::bezier::{Curve, Curves, Point};
use caliper::disk::{load, save, Error, Serialized};
use caliper::session::Session;

fn pt(x: f32, y: f32) -> Point {
    Point { x: x.to_bits(), y: y.to_bits() }
}

fn collected(curves: &Curves) -> Vec<Curve> {
    curves.iter().copied().collect()
}

fn sample() -> Curves {
    let mut curves = Curves::default();
    curves.push(Curve { from: pt(0.0, 0.0), to: pt(10.0, 0.0), control: pt(5.0, 5.0) });
    curves
}

fn sample_bytes() -> Vec<u8> {
    let mut bytes: Vec<u8> = Vec::new();
    bytes.extend_from_slice(&10u64.to_le_bytes());
    bytes.extend_from_slice(b"/tmp/a.png");
    bytes.extend_from_slice(&1u64.to_le_bytes());
    bytes.extend_from_slice(&6u64.to_le_bytes());
    for v in [0.0f32, 0.0, 10.0, 0.0, 5.0, 5.0] {
        bytes.extend_from_slice(&v.to_le_bytes());
    }
    bytes
}

#[test]
fn saved_document_loads_back() {
    let curves = sample();
    let bytes = save(Serialized::new(String::from("/tmp/a.png"), &curves));
    let loaded = load(&bytes).unwrap();
    assert_eq!(loaded.path(), "/tmp/a.png");
    assert_eq!(collected(&loaded.curves()), collected(&curves));
}

#[test]
fn document_bytes_are_path_then_records() {
    let bytes = save(Serialized::new(String::from("/tmp/a.png"), &sample()));
    assert_eq!(bytes, sample_bytes());
}

#[test]
fn every_coordinate_survives_saving() {
    let mut curves = Curves::default();
    curves.push(Curve {
        from: Point { x: f32::NAN.to_bits(), y: (-0.0f32).to_bits() },
        to: pt(f32::INFINITY, f32::MIN_POSITIVE),
        control: Point { x: 0x7fc0_0001, y: 0xffff_ffff },
    });
    curves.push(Curve { from: pt(0.1, 0.2), to: pt(-3.5, 1e30), control: pt(1024.0, 768.0) });
    let bytes = save(Serialized::new(String::from("über/größe.png"), &curves));
    let loaded = load(&bytes).unwrap();
    assert_eq!(loaded.path(), "über/größe.png");
    assert_eq!(collected(&loaded.curves()), collected(&curves));
}

#[test]
fn empty_document_round_trips() {
    let bytes = save(Serialized::new(String::new(), &Curves::default()));
    assert_eq!(bytes, vec![0u8; 16]);
    let loaded = load(&bytes).unwrap();
    assert_eq!(loaded.path(), "");
    assert!(collected(&loaded.curves()).is_empty());
}

#[test]
fn truncated_bytes_do_not_load() {
    let bytes = sample_bytes();
    for cut in 0..bytes.len() {
        assert!(matches!(load(&bytes[..cut]), Err(Error::BincodeErr(_))));
    }
}

#[test]
fn path_that_is_not_text_does_not_load() {
    let mut bytes: Vec<u8> = Vec::new();
    bytes.extend_from_slice(&2u64.to_le_bytes());
    bytes.extend_from_slice(&[0xff, 0xfe]);
    bytes.extend_from_slice(&0u64.to_le_bytes());
    assert!(matches!(load(&bytes), Err(Error::BincodeErr(_))));
}

#[test]
fn record_of_wrong_length_does_not_load() {
    let mut bytes: Vec<u8> = Vec::new();
    bytes.extend_from_slice(&1u64.to_le_bytes());
    bytes.extend_from_slice(b"a");
    bytes.extend_from_slice(&3u64.to_le_bytes());
    bytes.extend_from_slice(&6u64.to_le_bytes());
    bytes.extend_from_slice(&[0u8; 24]);
    bytes.extend_from_slice(&5u64.to_le_bytes());
    bytes.extend_from_slice(&[0u8; 20]);
    bytes.extend_from_slice(&7u64.to_le_bytes());
    bytes.extend_from_slice(&[0u8; 28]);
    assert!(matches!(load(&bytes), Err(Error::Arity { record: 1 })));
}

#[test]
fn records_are_checked_one_by_one() {
    let six = vec![1u32, 2, 3, 4, 5, 6];
    let good = Serialized::from_records(String::from("p"), vec![six.clone(), six.clone()]).unwrap();
    assert_eq!(
        collected(&good.curves()),
        vec![
            Curve {
                from: Point { x: 1, y: 2 },
                to: Point { x: 3, y: 4 },
                control: Point { x: 5, y: 6 }
            };
            2
        ]
    );
    assert!(matches!(
        Serialized::from_records(String::from("p"), vec![vec![]]),
        Err(Error::Arity { record: 0 })
    ));
    assert!(matches!(
        Serialized::from_records(String::from("p"), vec![six.clone(), six, vec![0; 7], vec![0; 2]]),
        Err(Error::Arity { record: 2 })
    ));
}

#[test]
fn bytes_behind_the_document_are_left_alone() {
    let mut bytes = sample_bytes();
    bytes.extend_from_slice(&[1, 2, 3]);
    let loaded = load(&bytes).unwrap();
    assert_eq!(loaded.path(), "/tmp/a.png");
    assert_eq!(collected(&loaded.curves()), collected(&sample()));
}

#[test]
fn session_restores_what_it_wrote() {
    let mut session = Session::new(String::from("/tmp/a.png"));
    session.update(caliper::session::Message::AddCurve(Curve {
        from: pt(1.0, 2.0),
        to: pt(3.0, 4.0),
        control: pt(5.0, 6.0),
    }));
    let bytes = save(session.document());
    let restored = Session::restore(&load(&bytes).unwrap());
    assert_eq!(restored.path(), "/tmp/a.png");
    assert_eq!(collected(restored.curves()), collected(session.curves()));
    assert!(!restored.sidebar());
}
