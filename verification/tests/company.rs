use rustbook::company::{parse_command, AddCommand, CommandError, Company};

fn words(s: &str) -> Vec<String> {
    s.split_whitespace().map(|w| w.to_string()).collect()
}

#[test]
fn parses_add_commands() {
    let AddCommand { name, department } = parse_command(&words("Add Sally to Engineering")).ok().unwrap();
    assert_eq!(name, "Sally");
    assert_eq!(department, "Engineering");
    // extra words are ignored
    let c = parse_command(&words("Add Amir to Sales today")).ok().unwrap();
    assert_eq!((c.name.as_str(), c.department.as_str()), ("Amir", "Sales"));
}

#[test]
fn refuses_bad_commands() {
    assert_eq!(parse_command(&words("Add Sally to")).err(), Some(CommandError::TooShort));
    assert_eq!(parse_command(&words("Put Sally to Sales")).err(), Some(CommandError::BadVerb));
    assert_eq!(parse_command(&words("Add Sally in Sales")).err(), Some(CommandError::BadParticle));
}

#[test]
fn company_keeps_staff_by_department() {
    let mut company = Company::new();
    company.add_employee("Sales".to_string(), "Amir".to_string());
    company.add_employee("Engineering".to_string(), "Sally".to_string());
    company.add_employee("Sales".to_string(), "Bo".to_string());
    assert_eq!(company.department_names(), &vec!["Sales".to_string(), "Engineering".to_string()]);
    assert_eq!(company.staff_of(&"Sales".to_string()), Some(&vec!["Amir".to_string(), "Bo".to_string()]));
    assert_eq!(company.staff_of(&"Engineering".to_string()), Some(&vec!["Sally".to_string()]));
    assert_eq!(company.staff_of(&"HR".to_string()), None);
}
