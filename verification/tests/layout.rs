use render_core::layout::{Attribute, AttributeLayout, ElementType, WORD_BYTES};

fn attr(element_type: ElementType, element_count: u32) -> Attribute {
    Attribute { element_type, element_count }
}

#[test]
fn element_sizes_follow_the_gpu_types() {
    assert_eq!(ElementType::Byte.size_bytes(), 1);
    assert_eq!(ElementType::UnsignedByte.size_bytes(), 1);
    assert_eq!(ElementType::Short.size_bytes(), 2);
    assert_eq!(ElementType::UnsignedShort.size_bytes(), 2);
    assert_eq!(ElementType::Int.size_bytes(), 4);
    assert_eq!(ElementType::UnsignedInt.size_bytes(), 4);
    assert_eq!(ElementType::Float.size_bytes(), 4);
    assert_eq!(ElementType::Double.size_bytes(), 8);
    assert_eq!(WORD_BYTES, 4);
}

#[test]
fn attribute_size_is_count_times_element_size() {
    assert_eq!(attr(ElementType::Float, 3).size_bytes(), 12);
    assert_eq!(attr(ElementType::Double, 4).size_bytes(), 32);
    assert_eq!(attr(ElementType::UnsignedByte, 4).size_bytes(), 4);
    assert_eq!(attr(ElementType::Short, 0).size_bytes(), 0);
    assert_eq!(attr(ElementType::Double, u32::MAX).size_bytes(), 8 * 4_294_967_295u64);
}

#[test]
fn single_position_attribute() {
    let layout = AttributeLayout::new(vec![attr(ElementType::Float, 3)]).unwrap();
    assert_eq!(layout.len(), 1);
    assert_eq!(layout.attribute(0), attr(ElementType::Float, 3));
    assert_eq!(layout.stride(), 12);
    assert_eq!(layout.offset(0), 0);
    assert_eq!(layout.offset(1), 12);
}

#[test]
fn offsets_accumulate_in_declaration_order() {
    let layout = AttributeLayout::new(vec![
        attr(ElementType::Float, 3),
        attr(ElementType::Float, 2),
        attr(ElementType::Float, 4),
    ])
    .unwrap();
    assert_eq!(layout.stride(), 36);
    assert_eq!(layout.offset(0), 0);
    assert_eq!(layout.offset(1), 12);
    assert_eq!(layout.offset(2), 20);
    assert_eq!(layout.offset(3), 36);
}

#[test]
fn order_of_attributes_changes_offsets_not_stride() {
    let forward =
        AttributeLayout::new(vec![attr(ElementType::Float, 3), attr(ElementType::Float, 2)])
            .unwrap();
    let backward =
        AttributeLayout::new(vec![attr(ElementType::Float, 2), attr(ElementType::Float, 3)])
            .unwrap();
    assert_eq!(forward.stride(), backward.stride());
    assert_eq!(forward.offset(1), 12);
    assert_eq!(backward.offset(1), 8);
}

#[test]
fn mixed_element_types_use_each_type_size() {
    let layout = AttributeLayout::new(vec![
        attr(ElementType::Float, 3),
        attr(ElementType::UnsignedByte, 4),
        attr(ElementType::Short, 2),
        attr(ElementType::Double, 1),
    ])
    .unwrap();
    assert_eq!(layout.offset(0), 0);
    assert_eq!(layout.offset(1), 12);
    assert_eq!(layout.offset(2), 16);
    assert_eq!(layout.offset(3), 20);
    assert_eq!(layout.stride(), 28);
}

#[test]
fn uniform_layout_stride_is_element_total_times_size() {
    let counts = [1u32, 4, 2, 3, 3];
    let layout = AttributeLayout::new(
        counts.iter().map(|&count| attr(ElementType::Float, count)).collect(),
    )
    .unwrap();
    let total: u32 = counts.iter().sum();
    assert_eq!(layout.stride(), (total * 4) as i32);
    let mut before = 0u32;
    for (index, count) in counts.iter().enumerate() {
        assert_eq!(layout.offset(index), (before * 4) as usize);
        before += count;
    }
    assert_eq!(layout.offset(counts.len()), layout.stride() as usize);
}

#[test]
fn empty_layout_has_zero_stride() {
    let layout = AttributeLayout::new(Vec::new()).unwrap();
    assert_eq!(layout.len(), 0);
    assert_eq!(layout.stride(), 0);
    assert_eq!(layout.offset(0), 0);
}

#[test]
fn zero_count_attribute_takes_no_room() {
    let layout = AttributeLayout::new(vec![
        attr(ElementType::Float, 2),
        attr(ElementType::Double, 0),
        attr(ElementType::Float, 1),
    ])
    .unwrap();
    assert_eq!(layout.stride(), 12);
    assert_eq!(layout.offset(1), 8);
    assert_eq!(layout.offset(2), 8);
}

#[test]
fn stride_at_the_limit_is_accepted() {
    let layout = AttributeLayout::new(vec![attr(ElementType::Byte, 2_147_483_647)]).unwrap();
    assert_eq!(layout.stride(), i32::MAX);
    assert_eq!(layout.offset(1), 2_147_483_647);
}

#[test]
fn stride_beyond_the_limit_is_refused() {
    assert_eq!(AttributeLayout::new(vec![attr(ElementType::Byte, 2_147_483_648)]), None);
    assert_eq!(
        AttributeLayout::new(vec![
            attr(ElementType::Byte, 2_147_483_647),
            attr(ElementType::Byte, 1),
        ]),
        None
    );
    assert_eq!(AttributeLayout::new(vec![attr(ElementType::Double, u32::MAX)]), None);
    assert_eq!(
        AttributeLayout::new(vec![
            attr(ElementType::Float, 3),
            attr(ElementType::Double, u32::MAX),
            attr(ElementType::Float, 3),
        ]),
        None
    );
}

#[test]
fn data_matches_whole_vertices_only() {
    let layout = AttributeLayout::new(vec![attr(ElementType::Float, 3)]).unwrap();
    assert!(layout.matches_data(9, 3));
    assert!(layout.matches_data(3, 1));
    assert!(!layout.matches_data(9, 2));
    assert!(!layout.matches_data(8, 3));
    assert!(!layout.matches_data(10, 3));
    assert!(!layout.matches_data(0, 3));
    assert!(layout.matches_data(0, 0));
    assert!(!layout.matches_data(9, -3));
}

#[test]
fn data_matches_counts_bytes_not_elements() {
    let layout = AttributeLayout::new(vec![
        attr(ElementType::Float, 3),
        attr(ElementType::UnsignedByte, 4),
    ])
    .unwrap();
    assert_eq!(layout.stride(), 16);
    assert!(layout.matches_data(8, 2));
    assert!(!layout.matches_data(14, 2));
    let doubles = AttributeLayout::new(vec![attr(ElementType::Double, 3)]).unwrap();
    assert!(doubles.matches_data(12, 2));
    assert!(!doubles.matches_data(6, 2));
}

#[test]
fn data_matches_survives_large_numbers() {
    let layout = AttributeLayout::new(vec![attr(ElementType::Byte, 2_147_483_647)]).unwrap();
    assert!(!layout.matches_data(usize::MAX, i32::MAX));
    assert!(!layout.matches_data(usize::MAX, i32::MIN));
    let empty = AttributeLayout::new(Vec::new()).unwrap();
    assert!(empty.matches_data(0, i32::MAX));
    assert!(!empty.matches_data(1, i32::MAX));
}
