use base64::Engine;
use fortify::captcha::ammo_box::{
    answer_char, answer_length, generate_answer, generate_svg, maintain_ammo_box, AmmoBox,
    AmmoBoxConfig, MaintenanceAction, PregenCaptcha,
};
use fortify::captcha::svg::{data_url, noise_count, render_svg, GlyphStyle, NoiseLine};
use fortify::types::CaptchaDifficulty;

fn small_box(capacity: usize) -> AmmoBox {
    let config = AmmoBoxConfig { ram_capacity: capacity, ..Default::default() };
    AmmoBox::new(config, 0)
}

fn item(answer: &str) -> PregenCaptcha {
    PregenCaptcha {
        answer: answer.to_string(),
        image_data: format!("image of {}", answer),
        difficulty: CaptchaDifficulty::Medium,
        generated_at: 7,
    }
}

#[test]
fn test_ammo_box_basic() {
    let config = AmmoBoxConfig { ram_capacity: 100, ..Default::default() };
    let mut ammo = AmmoBox::new(config, 0);

    // Generate and push
    let batch = ammo.generate_batch(50, CaptchaDifficulty::Medium);
    assert_eq!(batch.len(), 50);

    let pushed = ammo.push_batch(batch);
    assert_eq!(pushed, 50);
    assert_eq!(ammo.len(), 50);
    assert_eq!(ammo.fill_percent(), 50);

    // Pop
    let captcha = ammo.pop();
    assert!(captcha.is_some());
    assert_eq!(ammo.len(), 49);
}

#[test]
fn test_generate_answer() {
    let answer = generate_answer(CaptchaDifficulty::Medium);
    assert_eq!(answer.len(), 5);
    assert!(answer.chars().all(|c| c.is_ascii_alphanumeric()));
}

#[test]
fn answer_lengths_by_difficulty() {
    assert_eq!(answer_length(CaptchaDifficulty::Easy), 4);
    assert_eq!(answer_length(CaptchaDifficulty::Medium), 5);
    assert_eq!(answer_length(CaptchaDifficulty::Hard), 6);
    assert_eq!(answer_length(CaptchaDifficulty::Extreme), 8);
    for d in [
        CaptchaDifficulty::Easy,
        CaptchaDifficulty::Medium,
        CaptchaDifficulty::Hard,
        CaptchaDifficulty::Extreme,
    ] {
        let answer = generate_answer(d);
        assert_eq!(answer.chars().count(), answer_length(d));
        assert!(answer.chars().all(|c| c.is_ascii_digit() || c.is_ascii_uppercase()));
    }
}

#[test]
fn answer_chars_are_base_36() {
    assert_eq!(answer_char(0), '0');
    assert_eq!(answer_char(9), '9');
    assert_eq!(answer_char(10), 'A');
    assert_eq!(answer_char(35), 'Z');
}

#[test]
fn noise_counts_by_difficulty() {
    assert_eq!(noise_count(CaptchaDifficulty::Easy), 5);
    assert_eq!(noise_count(CaptchaDifficulty::Medium), 15);
    assert_eq!(noise_count(CaptchaDifficulty::Hard), 30);
    assert_eq!(noise_count(CaptchaDifficulty::Extreme), 50);
}

#[test]
fn render_svg_exact() {
    let lines = vec![NoiseLine { x1: 1, y1: 2, x2: 199, y2: 79, opacity: 20 }];
    let styles = vec![
        GlyphStyle { y: 40, rotation: -15, red: 150, green: 200, blue: 254 },
        GlyphStyle { y: 59, rotation: 14, red: 151, green: 152, blue: 153 },
    ];
    let svg = render_svg("A<", &lines, &styles);
    let expected = concat_all(&[
        "<svg xmlns=\"http://www.w3.org/2000/svg\" width=\"200\" height=\"80\">",
        "<rect width=\"100%\" height=\"100%\" fill=\"#1a1a2e\"/>",
        "<line x1=\"1\" y1=\"2\" x2=\"199\" y2=\"79\" stroke=\"rgba(255,255,255,0.20)\" stroke-width=\"1\"/>",
        "<text x=\"53.3\" y=\"40\" font-family=\"monospace\" font-size=\"32\" font-weight=\"bold\" fill=\"rgb(150,200,254)\" transform=\"rotate(-15 53.3 40)\">A</text>",
        "<text x=\"120.0\" y=\"59\" font-family=\"monospace\" font-size=\"32\" font-weight=\"bold\" fill=\"rgb(151,152,153)\" transform=\"rotate(14 120.0 59)\"><</text>",
        "</svg>",
    ]);
    assert_eq!(svg, expected);
}

fn concat_all(parts: &[&str]) -> String {
    let mut s = String::new();
    for p in parts {
        s.push_str(p);
    }
    s
}

#[test]
fn generated_svg_shows_answer_and_noise() {
    let url = generate_svg("AB12", CaptchaDifficulty::Easy);
    let b64 = url.strip_prefix("data:image/svg+xml;base64,").unwrap();
    let svg = String::from_utf8(base64::engine::general_purpose::STANDARD.decode(b64).unwrap()).unwrap();
    assert!(svg.starts_with("<svg xmlns=\"http://www.w3.org/2000/svg\" width=\"200\" height=\"80\">"));
    assert!(svg.ends_with("</svg>"));
    assert_eq!(svg.matches("<line ").count(), 5);
    assert_eq!(svg.matches("<text ").count(), 4);
    assert!(svg.contains(">A</text>"));
    assert!(svg.contains(">2</text>"));
}

#[test]
fn data_url_encodes_standard_base64() {
    assert_eq!(data_url("<svg/>??"), "data:image/svg+xml;base64,PHN2Zy8+Pz8=");
}

#[test]
fn push_when_full_returns_item_unchanged() {
    let mut ammo = small_box(2);
    assert!(ammo.push(item("a")).is_ok());
    assert!(ammo.push(item("b")).is_ok());
    let back = ammo.push(item("c")).unwrap_err();
    assert_eq!(back.answer, "c");
    assert_eq!(back.image_data, "image of c");
    assert_eq!(back.generated_at, 7);
    assert_eq!(ammo.len(), 2);
    assert_eq!(ammo.capacity(), 2);
    assert_eq!(ammo.fill_percent(), 100);
}

#[test]
fn pop_when_empty_counts_a_miss() {
    let mut ammo = small_box(3);
    assert!(ammo.is_empty());
    assert!(ammo.pop().is_none());
    assert!(ammo.pop().is_none());
    let stats = ammo.get_stats();
    assert_eq!(stats.pool_misses, 2);
    assert_eq!(stats.served, 0);
    assert_eq!(stats.pool_size, 0);
    assert_eq!(stats.pool_capacity, 3);
    assert_eq!(stats.fill_percent, 0);
}

#[test]
fn pool_is_first_in_first_out() {
    let mut ammo = small_box(3);
    assert_eq!(ammo.push_batch(vec![item("a"), item("b"), item("c"), item("d")]), 3);
    assert_eq!(ammo.len(), 3);
    assert_eq!(ammo.pop().unwrap().answer, "a");
    assert_eq!(ammo.pop().unwrap().answer, "b");
    assert_eq!(ammo.push_batch(vec![item("e")]), 1);
    assert_eq!(ammo.pop().unwrap().answer, "c");
    assert_eq!(ammo.pop().unwrap().answer, "e");
    assert_eq!(ammo.get_stats().served, 4);
}

#[test]
fn fill_percent_rounds_down() {
    let mut ammo = small_box(3);
    ammo.push_batch(vec![item("a")]);
    assert_eq!(ammo.fill_percent(), 33);
    ammo.push_batch(vec![item("b")]);
    assert_eq!(ammo.fill_percent(), 66);
    let mut big = small_box(100);
    let mut batch = Vec::new();
    for i in 0..29 {
        batch.push(item(&format!("{}", i)));
    }
    big.push_batch(batch);
    assert_eq!(big.fill_percent(), 29);
}

#[test]
fn dump_copies_and_rotates() {
    let mut ammo = small_box(4);
    ammo.push_batch(vec![item("a"), item("b"), item("c")]);
    let copy = ammo.dump_to_disk(2);
    assert_eq!(copy.len(), 2);
    assert_eq!(copy[0].answer, "a");
    assert_eq!(copy[1].answer, "b");
    assert_eq!(ammo.len(), 3);
    ammo.record_dumped(copy.len());
    assert_eq!(ammo.get_stats().dumped_to_disk, 2);
    assert_eq!(ammo.pop().unwrap().answer, "c");
    assert_eq!(ammo.pop().unwrap().answer, "a");
    assert_eq!(ammo.pop().unwrap().answer, "b");
    let all = ammo.dump_to_disk(10);
    assert!(all.is_empty());
}

#[test]
fn generate_batch_counts_and_stamps() {
    let mut ammo = small_box(10);
    let batch = ammo.generate_batch(3, CaptchaDifficulty::Hard);
    assert_eq!(batch.len(), 3);
    assert_eq!(ammo.get_stats().generated, 3);
    assert_eq!(ammo.len(), 0);
    for c in &batch {
        assert_eq!(c.difficulty, CaptchaDifficulty::Hard);
        assert_eq!(c.answer.len(), 6);
        assert_eq!(c.generated_at, batch[0].generated_at);
        assert!(c.image_data.starts_with("data:image/svg+xml;base64,"));
    }
}

#[test]
fn should_dump_after_interval() {
    let config = AmmoBoxConfig { ram_capacity: 5, dump_interval_secs: 300, ..Default::default() };
    let mut ammo = AmmoBox::new(config, 1_000);
    assert!(!ammo.should_dump(1_000));
    assert!(!ammo.should_dump(301_000));
    assert!(ammo.should_dump(301_001));
    assert!(!ammo.should_dump(999));
    ammo.mark_dumped(301_001);
    assert!(!ammo.should_dump(301_001));
    assert!(ammo.should_dump(601_002));
}

#[test]
fn spool_write_policy() {
    let config = AmmoBoxConfig { ram_capacity: 5, max_disk_cache: 2, min_disk_free_gb: 5, ..Default::default() };
    let ammo = AmmoBox::new(config, 0);
    assert!(ammo.may_write_spool(1, 5));
    assert!(!ammo.may_write_spool(2, 5));
    assert!(!ammo.may_write_spool(0, 4));
}

#[test]
fn default_ammo_box_config() {
    let config = AmmoBoxConfig::default();
    assert_eq!(config.ram_capacity, 10_000);
    assert_eq!(config.disk_cache_path, "/var/lib/cerberus/ammo");
    assert_eq!(config.max_disk_cache, 100_000);
    assert_eq!(config.min_disk_free_gb, 5);
    assert_eq!(config.dump_interval_secs, 300);
}

fn filled(capacity: usize, n: usize) -> AmmoBox {
    let mut ammo = small_box(capacity);
    let mut batch = Vec::new();
    for i in 0..n {
        batch.push(item(&format!("{}", i)));
    }
    assert_eq!(ammo.push_batch(batch), n);
    ammo
}

#[test]
fn maintenance_critical() {
    let ammo = filled(100, 9);
    assert_eq!(maintain_ammo_box(&ammo, 81, 0), MaintenanceAction::LoadFromDisk { max_count: 1000 });
    assert_eq!(
        maintain_ammo_box(&ammo, 80, 0),
        MaintenanceAction::Generate { count: 500, difficulty: CaptchaDifficulty::Medium }
    );
}

#[test]
fn maintenance_normal() {
    let ammo = filled(100, 10);
    assert_eq!(
        maintain_ammo_box(&ammo, 49, 0),
        MaintenanceAction::Generate { count: 100, difficulty: CaptchaDifficulty::Medium }
    );
    assert_eq!(maintain_ammo_box(&ammo, 50, 0), MaintenanceAction::Idle);
    let ammo = filled(100, 79);
    assert_eq!(
        maintain_ammo_box(&ammo, 10, 0),
        MaintenanceAction::Generate { count: 100, difficulty: CaptchaDifficulty::Medium }
    );
    let ammo = filled(100, 80);
    assert_eq!(maintain_ammo_box(&ammo, 10, 0), MaintenanceAction::Idle);
}

#[test]
fn maintenance_surplus() {
    let ammo = filled(100, 96);
    assert_eq!(maintain_ammo_box(&ammo, 19, 300_001), MaintenanceAction::DumpToDisk { batch_size: 1000 });
    assert_eq!(maintain_ammo_box(&ammo, 20, 300_001), MaintenanceAction::Idle);
    assert_eq!(maintain_ammo_box(&ammo, 19, 300_000), MaintenanceAction::Idle);
    let ammo = filled(100, 95);
    assert_eq!(maintain_ammo_box(&ammo, 19, 300_001), MaintenanceAction::Idle);
}
