use doordash_gen::account::Account;
use doordash_gen::account::Date;
use doordash_gen::output::build_output_path;
use doordash_gen::output::output_file_name;
use doordash_gen::output::plan_save;
use doordash_gen::output::todays_date;
use doordash_gen::output::render_accounts;
use doordash_gen::output::SaveError;

fn account(email: &str, password: &str) -> Account {
    Account::new(
        email.to_string(),
        password.to_string(),
        Date { year: 2024, month: 12, day: 25 },
    )
}

#[test]
fn file_name_is_zero_padded_day_month_year() {
    let d = Date { year: 2024, month: 12, day: 25 };
    assert_eq!(output_file_name(&d), "25-12-2024.txt");
    let d = Date { year: 2024, month: 1, day: 5 };
    assert_eq!(output_file_name(&d), "05-01-2024.txt");
}

#[test]
fn output_path_joins_directory_and_name() {
    let d = Date { year: 2023, month: 7, day: 9 };
    assert_eq!(build_output_path("./", &d), "./09-07-2023.txt");
}

#[test]
fn each_account_renders_one_line() {
    let accounts = vec![account("a@x.y", "pw1"), account("b@x.y", "pw2")];
    assert_eq!(render_accounts(&accounts), "a@x.y:pw1\nb@x.y:pw2\n");
}

#[test]
fn two_runs_on_one_date_accumulate_in_order() {
    let run1 = vec![account("a@x.y", "p1"), account("b@x.y", "p2")];
    let run2 = vec![account("c@x.y", "p3")];

    let mut appended = render_accounts(&run1);
    appended.push_str(&render_accounts(&run2));

    let mut both = run1.clone();
    both.extend(run2.clone());
    assert_eq!(appended, render_accounts(&both));
    assert_eq!(appended, "a@x.y:p1\nb@x.y:p2\nc@x.y:p3\n");
}

#[test]
fn saving_an_empty_run_is_refused() {
    let d = Date { year: 2024, month: 12, day: 25 };
    let none: Vec<Account> = Vec::new();
    assert!(matches!(plan_save(&none, "./", &d), Err(SaveError::NoAccounts)));
}

#[test]
fn a_planned_save_names_the_dated_file() {
    let d = Date { year: 2024, month: 12, day: 25 };
    let accounts = vec![account("a@x.y", "pw1")];
    let plan = plan_save(&accounts, "./", &d).unwrap();
    assert_eq!(plan.path, "./25-12-2024.txt");
    assert_eq!(plan.content, "a@x.y:pw1\n");
}

#[test]
fn todays_date_is_well_formed() {
    let d = todays_date().unwrap();
    assert!((1000..=9999).contains(&d.year));
    assert!((1..=12).contains(&d.month));
    assert!((1..=31).contains(&d.day));
}

#[test]
fn date_constructor_checks_ranges() {
    assert!(Date::new(2024, 2, 29).is_some());
    assert!(Date::new(2024, 0, 1).is_none());
    assert!(Date::new(2024, 13, 1).is_none());
    assert!(Date::new(2024, 1, 32).is_none());
    assert!(Date::new(999, 1, 1).is_none());
}

#[test]
fn date_from_clock_numbers_checks_ranges() {
    assert_eq!(
        Date::from_ymd(2024, 12, 25),
        Some(Date { year: 2024, month: 12, day: 25 })
    );
    assert_eq!(Date::from_ymd(99999, 1, 1), None);
    assert_eq!(Date::from_ymd(-44, 1, 1), None);
    assert_eq!(Date::from_ymd(2024, 0, 5), None);
    assert_eq!(Date::from_ymd(2024, 5, 32), None);
}

#[test]
fn account_record_carries_what_was_submitted() {
    let d = Date { year: 2024, month: 12, day: 25 };
    let a = Account::new("jane+1234567890@example.com".to_string(), "pw14pw14pw14pw".to_string(), d);
    assert_eq!(a.email, "jane+1234567890@example.com");
    assert_eq!(a.password, "pw14pw14pw14pw");
    assert_eq!(a.created, d);
}
