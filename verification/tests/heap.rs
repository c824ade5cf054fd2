use jvmcraft::errors::{InternalError, JavaException};
use jvmcraft::heap::Heap;
use jvmcraft::instance::{ArrayInstance, Instance};
use jvmcraft::types::Type;

#[test]
fn arrays_get_default_values_and_fresh_references() {
    let mut heap = Heap::new();
    assert_eq!(heap.get_curr_obj_ref(), 1);
    let r = heap.alloc_array_primitive("I", vec![], 3).unwrap();
    assert_eq!(r, Type::ArrayRef(1));
    assert_eq!(heap.get_curr_obj_ref(), 2);
    let a = heap.get_array_instance(1).unwrap();
    assert_eq!(a.get_classname(), "[I");
    assert_eq!(a.get_element_classname(), "I");
    assert_eq!(a.get_elements(), &vec![Type::Integer(0); 3]);
    let r2 = heap.alloc_array("java/lang/String", vec![], 2).unwrap();
    assert_eq!(r2, Type::ArrayRef(2));
    let a2 = heap.get_array_instance(2).unwrap();
    assert_eq!(a2.get_classname(), "[Ljava/lang/String;");
    assert_eq!(a2.get_element_classname(), "java/lang/String");
    assert_eq!(a2.get_elements(), &vec![Type::Null; 2]);
}

#[test]
fn given_elements_are_kept() {
    let mut heap = Heap::new();
    let elements = vec![Type::Integer(23), Type::Integer(46)];
    let r = heap.alloc_array_primitive("I", elements.clone(), 0).unwrap();
    let a = heap.get_array_instance(r.as_ref().unwrap()).unwrap();
    assert_eq!(a.get(1).unwrap(), &Type::Integer(46));
    assert!(matches!(a.get(2), Err(JavaException::ArrayIndexOutOfBounds(2, 2))));
}

#[test]
fn array_writes_are_read_back() {
    let mut heap = Heap::new();
    let r = heap.alloc_array_primitive("I", vec![], 6).unwrap().as_ref().unwrap();
    let a = heap.get_array_instance_mut(r).unwrap();
    a.set(0, Type::Integer(23)).unwrap();
    assert!(a.set(6, Type::Integer(1)).is_err());
    a.set_with_index_scale(8, Type::Integer(7)).unwrap();
    let a = heap.get_array_instance(r).unwrap();
    assert_eq!(*a.get(0).unwrap(), Type::Integer(23));
    assert_eq!(*a.get(2).unwrap(), Type::Integer(7));
    assert_eq!(*a.get_with_index_scale(8).unwrap(), Type::Integer(7));
}

#[test]
fn wrong_kind_of_instance() {
    let mut heap = Heap::new();
    let r = heap.alloc_array_primitive("B", vec![], 1).unwrap().as_ref().unwrap();
    assert!(matches!(heap.get_obj_instance(r), Err(InternalError::WrongInstance(_, _))));
    assert!(heap.get_instance(99).is_err());
    assert!(heap.get_instance(r).unwrap()._is_array());
}

#[test]
fn multi_dimensional_arrays() {
    let mut heap = Heap::new();
    let r = heap.alloc_multiarray("[[I", &[2, 3]).unwrap();
    assert_eq!(r, Type::ArrayRef(1));
    let outer = heap.get_array_instance(1).unwrap();
    assert_eq!(outer.get_classname(), "[[I");
    assert_eq!(outer.len(), 2);
    for e in outer.get_elements().clone() {
        let inner = heap.get_array_instance(e.as_ref().unwrap()).unwrap();
        assert_eq!(inner.get_classname(), "[I");
        assert_eq!(inner.get_elements(), &vec![Type::Integer(0); 3]);
    }
    // 1 + 2 * (1 + 1) references were handed out
    assert_eq!(heap.get_curr_obj_ref(), 6);
}

#[test]
fn one_dimension_skips_a_reference() {
    let mut heap = Heap::new();
    assert_eq!(heap.alloc_multiarray("[J", &[4]).unwrap(), Type::ArrayRef(2));
    assert_eq!(heap.get_array_instance(2).unwrap().get_elements(), &vec![Type::Long(0); 4]);
}

#[test]
fn arrays_are_copied() {
    let mut heap = Heap::new();
    heap.alloc_array_primitive("I", vec![Type::Integer(5)], 0).unwrap();
    let copy = heap.clone_instance(1).unwrap();
    assert_eq!(copy, Type::ArrayRef(2));
    let a = heap.get_array_instance(2).unwrap();
    assert_eq!(a.get_ref(), 2);
    assert_eq!(a.get_elements(), &vec![Type::Integer(5)]);
    assert!(heap.clone_instance(40).is_err());
}

#[test]
fn byte_arrays_read_as_strings() {
    let a = ArrayInstance::new("B", 9, "héllo".bytes().map(|b| Type::Byte(b as i8)).collect());
    assert_eq!(a.get_string().unwrap(), "héllo");
    let bad = ArrayInstance::new("B", 10, vec![Type::Byte(-1)]);
    assert!(bad.get_string().is_err());
    assert_eq!(a.get_hash_code(), 9);
}

#[test]
fn array_descriptors() {
    assert_eq!(Type::convert_array_descriptor_to_class_type("[Ljava/lang/String;"), "java/lang/String");
    assert_eq!(Type::convert_array_descriptor_to_class_type("[B"), "B");
    assert_eq!(Type::convert_array_descriptor_to_class_type("[[I"), "[I");
    assert_eq!(Type::convert_array_descriptor_to_class_type("Ljava/lang/Object;"), "java/lang/Object");
    assert_eq!(Type::convert_array_descriptor_to_class_type("J"), "J");
    let inst = Instance::ArrayInstance(ArrayInstance::new("[I", 3, vec![]));
    assert_eq!(inst.get_classname(), "[[I");
    assert_eq!(inst.get_ref(), 3);
}
