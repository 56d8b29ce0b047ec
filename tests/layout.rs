use gl_typestate::layout::{field_offset, struct_size, Field};

fn field_of<T>() -> Field {
    Field { size: std::mem::size_of::<T>(), align: std::mem::align_of::<T>() }
}

fn employee_fields() -> Vec<Field> {
    vec![field_of::<bool>(), field_of::<String>(), field_of::<[u8; 3]>()]
}

fn triangle_element_fields() -> Vec<Field> {
    vec![field_of::<u32>(), field_of::<u32>(), field_of::<u32>()]
}

fn vertex_data_fields() -> Vec<Field> {
    vec![field_of::<[f32; 3]>(), field_of::<[f32; 2]>(), field_of::<[f32; 3]>()]
}

#[test]
fn allows_specifying_the_resulting_type_for_single_fields() {
    let _: isize = field_offset::<isize>(&employee_fields(), 0).unwrap();
}

#[test]
fn allows_specifying_the_resulting_type_for_multiple_fields() {
    let fields = employee_fields();
    let _: (isize, isize) = (
        field_offset::<isize>(&fields, 0).unwrap(),
        field_offset::<isize>(&fields, 1).unwrap(),
    );
}

#[test]
fn triangle_element_has_expected_layout() {
    let fields = triangle_element_fields();
    assert_eq!(0, field_offset::<usize>(&fields, 0).unwrap());
    assert_eq!(4, field_offset::<usize>(&fields, 1).unwrap());
    assert_eq!(8, field_offset::<usize>(&fields, 2).unwrap());
    assert_eq!(12, struct_size(&fields).unwrap());
}

#[test]
fn vertex_data_has_expected_layout() {
    let fields = vertex_data_fields();
    assert_eq!(00, field_offset::<usize>(&fields, 0).unwrap());
    assert_eq!(12, field_offset::<usize>(&fields, 1).unwrap());
    assert_eq!(20, field_offset::<usize>(&fields, 2).unwrap());
    assert_eq!(32, struct_size(&fields).unwrap());
}

#[test]
fn padding_follows_the_c_rules() {
    let fields = employee_fields();
    let string_align = std::mem::align_of::<String>();
    assert_eq!(field_offset::<usize>(&fields, 1).unwrap(), string_align);
    assert_eq!(
        field_offset::<usize>(&fields, 2).unwrap(),
        string_align + std::mem::size_of::<String>()
    );
    let end = string_align + std::mem::size_of::<String>() + 3;
    assert_eq!(struct_size(&fields).unwrap(), (end + string_align - 1) / string_align * string_align);
    let mixed = vec![Field { size: 1, align: 1 }, Field { size: 4, align: 4 }, Field { size: 1, align: 1 }];
    assert_eq!(field_offset::<u32>(&mixed, 1), Some(4));
    assert_eq!(field_offset::<i32>(&mixed, 2), Some(8));
    assert_eq!(struct_size(&mixed), Some(12));
    assert_eq!(struct_size(&[]), Some(0));
}

#[test]
fn offsets_that_do_not_fit_are_none() {
    let huge = vec![Field { size: usize::MAX, align: 1 }, Field { size: 1, align: 2 }];
    assert_eq!(field_offset::<usize>(&huge, 1), None);
    assert_eq!(struct_size(&huge), None);
    let big = vec![Field { size: 1usize << 40, align: 1 }, Field { size: 1, align: 1 }];
    assert_eq!(field_offset::<u32>(&big, 1), None);
    assert_eq!(field_offset::<usize>(&big, 1), Some(1usize << 40));
}
