use did_it_run::api::user::emails::{Email, EmailSource};

#[test]
fn email_eq() {
    let a_email = "a@x.com".to_string();
    let b_email = "b@x.com".to_string();
    let a1 = Email {
        email: a_email.clone(),
        verified: false,
        source: EmailSource::User,
    };
    let a2 = Email {
        email: a_email.clone(),
        verified: false,
        source: EmailSource::User,
    };
    assert_eq!(a1, a2);

    let lowercase = Email {
        email: a_email.to_lowercase(),
        verified: false,
        source: EmailSource::User,
    };
    let uppercase = Email {
        email: a_email.to_uppercase(),
        verified: false,
        source: EmailSource::User,
    };
    assert_eq!(lowercase, uppercase);

    let a = Email {
        email: a_email.clone(),
        verified: false,
        source: EmailSource::User,
    };
    let b = Email {
        email: b_email,
        verified: false,
        source: EmailSource::User,
    };
    assert_ne!(a, b);

    let a1 = Email {
        email: a_email.clone(),
        verified: false,
        source: EmailSource::User,
    };
    let a2 = Email {
        email: a_email,
        verified: true,
        source: EmailSource::User,
    };
    assert_ne!(a1, a2);
}

#[test]
fn email_cmp() {
    let a_email = "a@x.com".to_string();
    let b_email = "b@x.com".to_string();
    let not_verified = Email {
        email: b_email.clone(),
        verified: false,
        source: EmailSource::User,
    };
    let verified = Email {
        email: a_email.clone(),
        verified: true,
        source: EmailSource::User,
    };
    assert!(not_verified < verified);

    let a = Email {
        email: a_email,
        verified: false,
        source: EmailSource::User,
    };
    let b = Email {
        email: b_email,
        verified: false,
        source: EmailSource::User,
    };
    assert!(a < b);
}

#[test]
fn email_order_ignores_letter_case() {
    let upper = Email {
        email: "B@X.COM".to_string(),
        verified: false,
        source: EmailSource::GitHub,
    };
    let lower = Email {
        email: "a@x.com".to_string(),
        verified: false,
        source: EmailSource::User,
    };
    // Byte for byte "B@X.COM" comes before "a@x.com"; lower-cased it comes after.
    assert!(lower < upper);
    assert!(upper > lower);
    assert_eq!(
        upper.partial_cmp(&lower),
        Some(std::cmp::Ordering::Greater)
    );
}

#[test]
fn email_equality_ignores_source() {
    let user = Email {
        email: "Someone@Example.com".to_string(),
        verified: true,
        source: EmailSource::User,
    };
    let github = Email {
        email: "someone@example.COM".to_string(),
        verified: true,
        source: EmailSource::GitHub,
    };
    assert_eq!(user, github);
    assert_eq!(user.partial_cmp(&github), Some(std::cmp::Ordering::Equal));
}

#[test]
fn email_prefix_comes_first() {
    let short = Email {
        email: "a@x.co".to_string(),
        verified: true,
        source: EmailSource::User,
    };
    let long = Email {
        email: "a@x.com".to_string(),
        verified: true,
        source: EmailSource::User,
    };
    assert!(short < long);
    assert!(!(long < short));
}

#[test]
fn email_source_names() {
    assert_eq!(EmailSource::User.to_string(), "User");
    assert_eq!(EmailSource::GitHub.to_string(), "GitHub");
    assert_eq!(format!("{:?}", EmailSource::GitHub), "GitHub");
}
