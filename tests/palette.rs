use gl_typestate::palette::Palette;

#[derive(Clone, Debug, PartialEq)]
struct Thing {
    name: String,
    ready: bool,
}

fn thing1() -> Thing {
    Thing {
        name: String::from("Something"),
        ready: true,
    }
}

fn thing2() -> Thing {
    Thing {
        name: String::from("Number two"),
        ready: true,
    }
}

fn thing_eq(l: &Thing, r: &Thing) -> bool {
    l == r
}

#[test]
fn empty() {
    let Palette { elements, indices } = Palette::<Thing, usize>::naive(&[], thing_eq).unwrap();
    assert_eq!(elements, Vec::new());
    assert_eq!(indices, Vec::new());
}

#[test]
fn single_element() {
    let Palette { elements, indices } = Palette::<Thing, u16>::naive(&[thing1()], thing_eq).unwrap();
    assert_eq!(elements, vec![thing1()]);
    assert_eq!(indices, vec![0]);
}

#[test]
fn multiple_elements() {
    let Palette { elements, indices } =
        Palette::<Thing, u8>::naive(&[thing1(), thing2(), thing1()], thing_eq).unwrap();
    assert_eq!(elements, vec![thing1(), thing2()]);
    assert_eq!(indices, vec![0, 1, 0]);
}

#[test]
fn first_accepted_representative_wins() {
    // Equal when the numbers differ by at most one: 5 is close to 4 and to 6.
    let close = |a: &i32, b: &i32| (a - b).abs() <= 1;
    let Palette { elements, indices } = Palette::<i32, u32>::naive(&[4, 6, 5, 9, 4], close).unwrap();
    assert_eq!(elements, vec![4, 6, 9]);
    assert_eq!(indices, vec![0, 1, 0, 2, 0]);
}

#[test]
fn exactly_as_many_distinct_values_as_the_index_type_numbers() {
    let values: Vec<u32> = (0..256).collect();
    let p = Palette::<u32, u8>::naive(&values, |a: &u32, b: &u32| a == b).unwrap();
    assert_eq!(p.elements.len(), 256);
    assert_eq!(p.indices[255], 255u8);
}

#[test]
fn too_many_distinct_values_for_the_index_type() {
    let values: Vec<u32> = (0..257).collect();
    assert!(Palette::<u32, u8>::naive(&values, |a: &u32, b: &u32| a == b).is_none());
}

#[test]
fn many_repeated_values_fit_a_small_index_type() {
    let values: Vec<u32> = (0..1000).map(|i| i % 3).collect();
    let p = Palette::<u32, u8>::naive(&values, |a: &u32, b: &u32| a == b).unwrap();
    assert_eq!(p.elements, vec![0, 1, 2]);
    assert_eq!(p.indices.len(), 1000);
    assert_eq!(p.indices[998], 2u8);
}
