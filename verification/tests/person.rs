use greeter::person::display_person;
use greeter::person::greet;
use greeter::person::Person;

#[test]
fn construction_round_trip() {
    let p = Person::new(String::from("Alice"), 30);
    assert_eq!(p.name, "Alice");
    assert_eq!(p.age, 30);
}

#[test]
fn greet_alice() {
    let p = Person::new(String::from("Alice"), 30);
    assert_eq!(p.greet(), "Hello, Alice!");
    assert_eq!(greet(&p), "Hello, Alice!");
}

#[test]
fn display_alice() {
    let p = Person::new(String::from("Alice"), 30);
    assert_eq!(display_person(&p), "Alice is 30 years old");
}

#[test]
fn repeated_calls_identical() {
    let p = Person::new(String::from("Bob"), 7);
    assert_eq!(p.greet(), p.greet());
    assert_eq!(greet(&p), greet(&p));
    assert_eq!(display_person(&p), display_person(&p));
    assert_eq!(p.name, "Bob");
    assert_eq!(p.age, 7);
}

#[test]
fn empty_name_and_zero_age() {
    let p = Person::new(String::new(), 0);
    assert_eq!(p.greet(), "Hello, !");
    assert_eq!(greet(&p), "Hello, !");
    assert_eq!(display_person(&p), " is 0 years old");
}

#[test]
fn zero_age_construction_succeeds() {
    let p = Person::new(String::from("Carol"), 0);
    assert_eq!(p.age, 0);
    assert_eq!(display_person(&p), "Carol is 0 years old");
}
