use parabellum_web::api::actions::AttackType;
use parabellum_web::handlers::reports::{battle_outcome, battle_report_summary, battle_report_title, report_permalink};

#[test]
fn battle_titles_name_the_attack() {
    assert_eq!(battle_report_title("Roma", AttackType::Raid, "Lutetia"), "Roma raided Lutetia");
    assert_eq!(battle_report_title("Roma", AttackType::Normal, "Lutetia"), "Roma attacked Lutetia");
}

#[test]
fn battle_outcomes() {
    assert_eq!(battle_outcome(500, "500 lumber", Some(&vec![1, 2])), "Bounty: 500 lumber");
    assert_eq!(battle_outcome(0, "", Some(&vec![3, 0, 4])), "Lost 7 units");
    assert_eq!(battle_outcome(0, "", Some(&vec![0, 0])), "No losses");
    assert_eq!(battle_outcome(0, "", None), "");
}

#[test]
fn battle_summaries_place_both_villages() {
    let s = battle_report_summary("Roma", (10, -3), AttackType::Normal, "Lutetia", (-7, 0), "Victory", "No losses");
    assert_eq!(s, "Roma (10|-3) attacked Lutetia (-7|0) - Victory - No losses");
}

#[test]
fn report_permalinks() {
    assert_eq!(report_permalink(1), "/reports/00000000-0000-0000-0000-000000000001");
}
