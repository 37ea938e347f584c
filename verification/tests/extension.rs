use atsisbroken::extension::predict_field_key;
use atsisbroken::FieldDescriptor;

fn fd(label: &str, placeholder: &str, aria: &str, name: &str, id: &str) -> FieldDescriptor {
    FieldDescriptor {
        label: label.into(),
        placeholder: placeholder.into(),
        aria_label: aria.into(),
        name: name.into(),
        id: id.into(),
        kind: "text".into(),
    }
}

fn fixtures() -> Vec<(FieldDescriptor, &'static str)> {
    vec![
        (fd("Email", "", "", "email", "email"), "email"),
        (fd("", "your.email@example.com", "", "", ""), "email"),
        (fd("", "", "Mobile phone number", "", ""), "phone"),
        (fd("", "", "", "user_phone_mobile", ""), "phone"),
        (fd("LinkedIn URL", "", "", "linkedin_url", ""), "linkedin"),
        (fd("GitHub", "", "", "", ""), "github"),
        (fd("Personal website", "", "", "", ""), "website"),
        (fd("Street address", "", "", "address1", ""), "address"),
        (fd("Are you authorized to work?", "", "", "", ""), "work_authorization"),
        (fd("Visa sponsorship required?", "", "", "", ""), "work_authorization"),
        (fd("Years of experience", "", "", "yrs_exp", ""), "years_experience"),
        (fd("First name", "", "", "fname", ""), "full_name"),
        (fd("Last name", "", "", "lname", ""), "full_name"),
        (fd("Full name", "", "", "name", ""), "full_name"),
        (fd("Salary expectation", "", "", "", ""), ""),
        (fd("Why do you want this job?", "", "", "", ""), ""),
    ]
}

#[test]
fn predict_field_key_matches_fixtures() {
    for (f, expected) in fixtures() {
        assert_eq!(
            predict_field_key(&f),
            expected,
            "label={:?} placeholder={:?} name={:?}",
            f.label,
            f.placeholder,
            f.name
        );
    }
}

#[test]
fn triple_sims_determinism() {
    let run = || -> Vec<String> {
        fixtures().into_iter().map(|(f, _)| predict_field_key(&f).to_string()).collect()
    };
    let s1 = run();
    let s2 = run();
    let s3 = run();
    assert_eq!(s1, s2, "sim 1 vs sim 2 diverged");
    assert_eq!(s2, s3, "sim 2 vs sim 3 diverged");
}

#[test]
fn no_fabrication_for_unknown_fields() {
    let unknown = fd("How many siblings do you have?", "", "", "", "");
    assert_eq!(predict_field_key(&unknown), "");
}

#[test]
fn extension_reads_tel_and_url_as_keywords() {
    assert_eq!(predict_field_key(&fd("Telephone", "", "", "", "")), "phone");
    assert_eq!(predict_field_key(&fd("Profile URL", "", "", "", "")), "website");
}
