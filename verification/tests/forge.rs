use babyplonk::forge::{forge, forge_from_vk_json, forged_c, parse_g1, point_to_vk_json, proof_c_from_vk_x, vk_fields_of, vk_member_text, Bn254G1, ForgeError, Json, VkFields};

const Q_MINUS_2: &str = "21888242871839275222246405745257275088696311157297823662689037894645226208581";

fn coords(x: &str, y: &str) -> Vec<Option<String>> {
    vec![Some(x.to_string()), Some(y.to_string())]
}

fn generator() -> Bn254G1 {
    parse_g1(&coords("1", "2")).unwrap()
}

fn vk(alpha: Vec<Option<String>>, ic: Vec<Option<Vec<Option<String>>>>) -> VkFields {
    VkFields { alpha: Some(alpha), ic: Some(ic) }
}

#[test]
fn parse_g1_reads_the_generator() {
    let g = generator();
    assert_eq!(g.x, [1, 0, 0, 0]);
    assert_eq!(g.y, [2, 0, 0, 0]);
    assert!(!g.infinity);
}

#[test]
fn parse_g1_rejects_each_malformed_input() {
    assert_eq!(parse_g1(&[Some("1".to_string())]).unwrap_err(), ForgeError::PointTooShort);
    assert_eq!(parse_g1(&[None, Some("2".to_string())]).unwrap_err(), ForgeError::XNotString);
    assert_eq!(parse_g1(&[Some("1".to_string()), None]).unwrap_err(), ForgeError::YNotString);
    assert_eq!(parse_g1(&coords("01", "2")).unwrap_err(), ForgeError::InvalidX);
    assert_eq!(parse_g1(&coords("", "2")).unwrap_err(), ForgeError::InvalidX);
    assert_eq!(parse_g1(&coords("1", "-2")).unwrap_err(), ForgeError::InvalidY);
    assert_eq!(parse_g1(&coords("1", "2a")).unwrap_err(), ForgeError::InvalidY);
    assert_eq!(parse_g1(&coords("1", "3")).unwrap_err(), ForgeError::NotOnCurve);
}

#[test]
fn parse_g1_ignores_extra_coordinates() {
    let mut c = coords("1", "2");
    c.push(Some("1".to_string()));
    c.push(None);
    let g = parse_g1(&c).unwrap();
    assert_eq!(g.x, [1, 0, 0, 0]);
}

#[test]
fn parse_g1_reduces_modulo_q() {
    // q + 1 is congruent to 1, and -2 is q - 2.
    let q_plus_1 = "21888242871839275222246405745257275088696311157297823662689037894645226208584";
    let g = parse_g1(&coords(q_plus_1, Q_MINUS_2)).unwrap();
    assert_eq!(point_to_vk_json(&g), vec!["1".to_string(), Q_MINUS_2.to_string(), "1".to_string()]);
}

#[test]
fn point_to_vk_json_writes_decimal_coordinates() {
    let g = generator();
    assert_eq!(point_to_vk_json(&g), vec!["1".to_string(), "2".to_string(), "1".to_string()]);
}

#[test]
fn proof_c_negates_vk_x() {
    let c = proof_c_from_vk_x(&generator());
    assert_eq!(point_to_vk_json(&c), vec!["1".to_string(), Q_MINUS_2.to_string(), "1".to_string()]);
    let back = proof_c_from_vk_x(&c);
    assert_eq!(back.x, [1, 0, 0, 0]);
    assert_eq!(back.y, [2, 0, 0, 0]);
}

#[test]
fn forged_c_for_small_inputs() {
    let g = generator();
    // c = 0: vk_x = G, C = -G.
    let c0 = forged_c(&g, &g, 0);
    assert_eq!(point_to_vk_json(&c0)[1], Q_MINUS_2);
    // c = 1: vk_x = 2G.
    let c1 = forged_c(&g, &g, 1);
    assert_eq!(
        point_to_vk_json(&c1),
        vec![
            "1368015179489954701390400359078579693043519447331113978918064868415326638035".to_string(),
            "11970132820537103637166003141937572314130795164147247315533067598634108082819".to_string(),
            "1".to_string(),
        ]
    );
    // c = 999: vk_x = 1000G.
    let c999 = forged_c(&g, &g, 999);
    assert_eq!(
        point_to_vk_json(&c999)[0],
        "1877430218621023249938287835150142829605985124239973405386905603937246406682"
    );
    assert_eq!(
        point_to_vk_json(&c999)[1],
        "16729572126439698850828656299343005078473823838614746441806673201867686959310"
    );
}

#[test]
fn forge_builds_the_proof_points() {
    let key = vk(coords("1", "2"), vec![Some(coords("1", "2")), Some(coords("1", "2"))]);
    let f = forge(&key, 5).unwrap();
    assert_eq!(f.a.x, [1, 0, 0, 0]);
    assert_eq!(f.a.y, [2, 0, 0, 0]);
    assert_eq!(
        point_to_vk_json(&f.c),
        vec![
            "4503322228978077916651710446042370109107355802721800704639343137502100212473".to_string(),
            "15755600620544848102871225597907291547126923215509797882023933893086009631615".to_string(),
            "1".to_string(),
        ]
    );
}

#[test]
fn forge_reports_key_errors_in_order() {
    let missing_alpha = VkFields { alpha: None, ic: None };
    assert_eq!(forge(&missing_alpha, 1).unwrap_err(), ForgeError::MissingAlpha);
    let missing_ic = VkFields { alpha: Some(coords("1", "2")), ic: None };
    assert_eq!(forge(&missing_ic, 1).unwrap_err(), ForgeError::MissingIc);
    let short = vk(coords("1", "2"), vec![Some(coords("1", "2"))]);
    assert_eq!(forge(&short, 1).unwrap_err(), ForgeError::IcTooShort);
    let bad0 = vk(coords("1", "2"), vec![None, Some(coords("1", "2"))]);
    assert_eq!(forge(&bad0, 1).unwrap_err(), ForgeError::InvalidIc0);
    let bad1 = vk(coords("1", "2"), vec![Some(coords("1", "2")), None]);
    assert_eq!(forge(&bad1, 1).unwrap_err(), ForgeError::InvalidIc1);
    // alpha is parsed before IC[0], which is parsed before IC[1].
    let bad_alpha = vk(coords("1", "3"), vec![Some(coords("x", "2")), Some(coords("1", "2"))]);
    assert_eq!(forge(&bad_alpha, 1).unwrap_err(), ForgeError::NotOnCurve);
    let bad_ic0 = vk(coords("1", "2"), vec![Some(coords("x", "2")), Some(coords("1", "3"))]);
    assert_eq!(forge(&bad_ic0, 1).unwrap_err(), ForgeError::InvalidX);
    let bad_ic1 = vk(coords("1", "2"), vec![Some(coords("1", "2")), Some(coords("1", "3"))]);
    assert_eq!(forge(&bad_ic1, 1).unwrap_err(), ForgeError::NotOnCurve);
}

#[test]
fn forge_error_messages() {
    assert_eq!(ForgeError::PointTooShort.message(), "invalid G1 point: expected at least [x, y]");
    assert_eq!(ForgeError::NotOnCurve.message(), "invalid G1 point: not on curve");
    assert_eq!(ForgeError::IcTooShort.message(), "IC must contain at least IC[0], IC[1]");
    assert_eq!(ForgeError::MissingAlpha.message(), "missing vk_alpha_1 array");
}

const KEY_TEXT: &str = r#"{
  "protocol": "groth16",
  "vk_alpha_1": ["1", "2", "1"],
  "vk_beta_2": [["1", "2"], ["3", "4"], ["1", "0"]],
  "IC": [["1", "2", "1"], ["1", "2", "1"]]
}"#;

#[test]
fn forge_from_vk_json_reads_the_key_text() {
    let f = forge_from_vk_json(KEY_TEXT, 5).unwrap();
    assert_eq!(f.a.x, [1, 0, 0, 0]);
    assert_eq!(f.a.y, [2, 0, 0, 0]);
    assert_eq!(
        point_to_vk_json(&f.c),
        vec![
            "4503322228978077916651710446042370109107355802721800704639343137502100212473".to_string(),
            "15755600620544848102871225597907291547126923215509797882023933893086009631615".to_string(),
            "1".to_string(),
        ]
    );
}

#[test]
fn forge_from_vk_json_reports_each_key_error() {
    assert_eq!(forge_from_vk_json("{ not json", 1).unwrap_err(), ForgeError::InvalidJson);
    assert_eq!(forge_from_vk_json("[1, 2]", 1).unwrap_err(), ForgeError::MissingAlpha);
    assert_eq!(forge_from_vk_json(r#"{"vk_alpha_1": "1"}"#, 1).unwrap_err(), ForgeError::MissingAlpha);
    assert_eq!(forge_from_vk_json(r#"{"vk_alpha_1": ["1", "2"]}"#, 1).unwrap_err(), ForgeError::MissingIc);
    assert_eq!(
        forge_from_vk_json(r#"{"vk_alpha_1": ["1", "2"], "IC": [["1", "2"]]}"#, 1).unwrap_err(),
        ForgeError::IcTooShort
    );
    assert_eq!(
        forge_from_vk_json(r#"{"vk_alpha_1": ["1", "2"], "IC": [7, ["1", "2"]]}"#, 1).unwrap_err(),
        ForgeError::InvalidIc0
    );
    assert_eq!(
        forge_from_vk_json(r#"{"vk_alpha_1": ["1", "2"], "IC": [["1", "2"], {}]}"#, 1).unwrap_err(),
        ForgeError::InvalidIc1
    );
    // A coordinate that is a JSON number, not a string.
    assert_eq!(
        forge_from_vk_json(r#"{"vk_alpha_1": [1, "2"], "IC": [["1", "2"], ["1", "2"]]}"#, 1).unwrap_err(),
        ForgeError::XNotString
    );
}

#[test]
fn vk_fields_of_reads_alpha_and_ic() {
    let key = Json::Object(vec![
        ("IC".to_string(), r#"[["1","2"],5]"#.to_string()),
        ("vk_alpha_1".to_string(), r#"["7",null]"#.to_string()),
    ]);
    let f = vk_fields_of(&key);
    assert_eq!(f.alpha, Some(vec![Some("7".to_string()), None]));
    assert_eq!(f.ic, Some(vec![Some(vec![Some("1".to_string()), Some("2".to_string())]), None]));
    let not_object = vk_fields_of(&Json::Array(vec![]));
    assert_eq!(not_object.alpha, None);
    assert_eq!(not_object.ic, None);
}

#[test]
fn vk_member_text_gives_the_member_as_json() {
    assert_eq!(
        vk_member_text(KEY_TEXT, "vk_beta_2"),
        Some(r#"[["1","2"],["3","4"],["1","0"]]"#.to_string())
    );
    assert_eq!(vk_member_text(KEY_TEXT, "vk_delta_2"), None);
    assert_eq!(vk_member_text("not json", "vk_beta_2"), None);
}
