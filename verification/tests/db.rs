use omron_link::db::{
    push_hundredths, push_integer, push_value, Db, DbConfig, DbFieldValue, DbRecord,
};

fn config() -> DbConfig {
    DbConfig {
        url: "http://localhost:8086".to_string(),
        token: "SECRET-REDACTED".to_string(),
        org: "home".to_string(),
        bucket: "health".to_string(),
    }
}

fn integer(v: i64) -> String {
    let mut out = String::new();
    push_integer(&mut out, v);
    out
}

fn hundredths(v: i64) -> String {
    let mut out = String::new();
    push_hundredths(&mut out, v);
    out
}

#[test]
fn record_starts_empty() {
    let r = DbRecord::new(-5);
    assert_eq!(r.ts(), -5);
    assert_eq!((r.tag_count(), r.field_count()), (0, 0));
    assert_eq!(r.tag("user"), None);
    assert_eq!(r.field("weight"), None);
}

#[test]
fn add_tag_replaces_the_value_of_a_key() {
    let mut r = DbRecord::new(0);
    r.add_tag("user", "1");
    r.add_tag("room", "bath");
    r.add_tag("user", "2");
    assert_eq!(r.tag_count(), 2);
    assert_eq!(r.tag("user"), Some("2"));
    assert_eq!(r.tag("room"), Some("bath"));
}

#[test]
fn add_field_replaces_the_value_of_a_key() {
    let mut r = DbRecord::new(0);
    r.add_field("sys", DbFieldValue::Integer(120));
    r.add_field("mov", DbFieldValue::Bool(false));
    r.add_field("sys", DbFieldValue::Integer(125));
    assert_eq!(r.field_count(), 2);
    assert_eq!(r.field("sys"), Some(DbFieldValue::Integer(125)));
    assert_eq!(r.field("mov"), Some(DbFieldValue::Bool(false)));
}

#[test]
fn integers_as_text() {
    assert_eq!(integer(0), "0");
    assert_eq!(integer(7), "7");
    assert_eq!(integer(10), "10");
    assert_eq!(integer(-1), "-1");
    assert_eq!(integer(1_120_194_000_000_000_000), "1120194000000000000");
    assert_eq!(integer(i64::MAX), "9223372036854775807");
    assert_eq!(integer(i64::MIN), "-9223372036854775808");
}

#[test]
fn hundredths_as_text() {
    assert_eq!(hundredths(0), "0");
    assert_eq!(hundredths(500), "5");
    assert_eq!(hundredths(535), "5.35");
    assert_eq!(hundredths(550), "5.5");
    assert_eq!(hundredths(505), "5.05");
    assert_eq!(hundredths(5), "0.05");
    assert_eq!(hundredths(-50), "-0.5");
    assert_eq!(hundredths(327670), "3276.7");
}

#[test]
fn hundredths_read_like_floats() {
    for raw in [0i64, 1, 19, 20, 100, 1307, 65534] {
        let text = hundredths(raw * 5);
        assert_eq!(text, format!("{}", raw as f64 / 20.0));
    }
}

#[test]
fn values_as_text() {
    let mut out = String::from("x=");
    push_value(&mut out, DbFieldValue::Bool(true));
    out.push(',');
    push_value(&mut out, DbFieldValue::Bool(false));
    out.push(',');
    push_value(&mut out, DbFieldValue::Integer(-72));
    out.push(',');
    push_value(&mut out, DbFieldValue::Decimal(6535));
    assert_eq!(out, "x=true,false,-72,65.35");
}

#[test]
fn line_of_a_record() {
    let mut r = DbRecord::new(1_120_194_000_000_000_000);
    r.add_tag("user", "1");
    r.add_tag("device_id", "bp");
    r.add_field("bpm", DbFieldValue::Integer(72));
    r.add_field("mov", DbFieldValue::Bool(false));
    let mut out = String::new();
    r.push_line(&mut out, "pressure");
    assert_eq!(out, "pressure,user=1,device_id=bp bpm=72,mov=false 1120194000000000000\n");
}

#[test]
fn line_without_tags() {
    let mut r = DbRecord::new(7);
    r.add_field("weight", DbFieldValue::Decimal(500));
    let mut out = String::from("# ");
    r.push_line(&mut out, "weight");
    assert_eq!(out, "# weight weight=5 7\n");
}

#[test]
fn send_builds_one_request_for_the_batch() {
    let db = Db::new(config());
    let mut a = DbRecord::new(1);
    a.add_tag("device_id", "scale");
    a.add_field("weight", DbFieldValue::Decimal(6535));
    let mut b = DbRecord::new(2);
    b.add_tag("device_id", "scale");
    b.add_field("weight", DbFieldValue::Decimal(7000));
    let request = db.send("weight", &[a, b]);
    assert_eq!(request.url, "http://localhost:8086/api/v2/write");
    assert_eq!(request.org, "home");
    assert_eq!(request.bucket, "health");
    assert_eq!(request.precision, "ns");
    assert_eq!(request.authorization, "Token SECRET-REDACTED");
    assert_eq!(request.content_type, "text/plain; charset=utf-8");
    assert_eq!(request.accept, "application/json");
    assert_eq!(
        request.body,
        "weight,device_id=scale weight=65.35 1\nweight,device_id=scale weight=70 2\n"
    );
}
