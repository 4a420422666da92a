use mopa::Any;
use mopa::AnyBox;
use mopa::Tag;

trait Person: Any {
    fn weight(&self) -> i16;
}

#[derive(Clone, Debug, PartialEq)]
struct Benny {
    // (Benny is not a superhero. He can't carry more than 256kg of food at once.)
    kilograms_of_food: u8,
}

impl Any for Benny {

}

impl Person for Benny {
    fn weight(&self) -> i16 {
        self.kilograms_of_food as i16 + 60
    }
}

#[derive(Clone, Debug, PartialEq)]
struct Chris;

impl Any for Chris {

}

impl Person for Chris {
    fn weight(&self) -> i16 {
        -5 // antigravity device! cool!
    }
}

trait Parameterized<A, B>: Any {
    fn test(&self, a: A, b: &B) -> i32;
}

impl<'a, B> Parameterized<&'a i32, B> for Benny {
    fn test(&self, x: &'a i32, _: &B) -> i32 {
        *x
    }
}

impl<A, B> Parameterized<A, B> for Chris {
    fn test(&self, _: A, _: &B) -> i32 {
        0
    }
}

trait Float {}

impl Float for f32 {}

impl Float for f64 {}

trait Deep<F: Float> {}

struct DeepStruct;

impl<F: Float> Deep<F> for DeepStruct {}

trait Constrained<X, F: Float, D: Deep<F>>: Any {
    // Don't ask me why
    fn roundness(&self) -> i16;
}

impl<F: Float, D: Deep<F>> Constrained<u8, F, D> for Benny {
    fn roundness(&self) -> i16 {
        2i16
    }
}

impl<X, F: Float, D: Deep<F>> Constrained<X, F, D> for Chris {
    fn roundness(&self) -> i16 {
        5i16
    }
}

#[test]
fn test_ref() {
    let benny = Benny { kilograms_of_food: 13 };
    let tb = Tag::<Benny>::of();
    let tc = Tag::<Chris>::of();
    let person = AnyBox::new(benny.clone(), &tb);

    assert!(person.is(&tb));
    assert_eq!(person.downcast_ref(&tb), Some(&benny));
    assert_eq!(person.downcast_ref_unchecked(&tb), &benny);

    assert!(!person.is(&tc));
    assert_eq!(person.downcast_ref::<Chris>(&tc), None);
}

#[test]
fn test_mut() {
    let mut benny = Benny { kilograms_of_food: 13 };
    let tb = Tag::<Benny>::of();
    let tc = Tag::<Chris>::of();
    let mut person = AnyBox::new(benny.clone(), &tb);

    assert!(person.is(&tb));
    assert_eq!(person.downcast_ref(&tb), Some(&benny));
    assert_eq!(person.downcast_mut(&tb), Some(&mut benny));
    assert_eq!(person.downcast_ref_unchecked(&tb), &benny);
    assert_eq!(person.downcast_mut_unchecked(&tb), &mut benny);

    assert!(!person.is(&tc));
    assert_eq!(person.downcast_ref::<Chris>(&tc), None);
    assert_eq!(person.downcast_mut::<Chris>(&tc), None);
}

#[test]
fn test_box() {
    let mut benny = Benny { kilograms_of_food: 13 };
    let tb = Tag::<Benny>::of();
    let tc = Tag::<Chris>::of();
    let mut person = AnyBox::new(benny.clone(), &tb);

    assert!(person.is(&tb));
    assert_eq!(person.downcast_ref(&tb), Some(&benny));
    assert_eq!(person.downcast_mut(&tb), Some(&mut benny));
    assert_eq!(person.downcast(&tb).map(|x| *x).ok(), Some(benny.clone()));

    person = AnyBox::new(benny.clone(), &tb);
    assert_eq!(person.downcast_ref_unchecked(&tb), &benny);
    assert_eq!(person.downcast_mut_unchecked(&tb), &mut benny);
    assert_eq!(*person.downcast_unchecked(&tb), benny);

    person = AnyBox::new(benny.clone(), &tb);
    assert!(!person.is(&tc));
    assert_eq!(person.downcast_ref::<Chris>(&tc), None);
    assert_eq!(person.downcast_mut::<Chris>(&tc), None);
    assert!(person.downcast::<Chris>(&tc).err().is_some());
}

#[test]
fn parameterized() {
    let i123 = 123;
    let empty = String::new();
    let mut benny = Benny { kilograms_of_food: 13 };
    let tb = Tag::<Benny>::of();
    let tc = Tag::<Chris>::of();
    let mut person = AnyBox::new(benny.clone(), &tb);

    assert!(person.is(&tb));
    assert_eq!(person.downcast_ref(&tb), Some(&benny));
    assert_eq!(person.downcast_mut(&tb), Some(&mut benny));
    assert_eq!(person.downcast(&tb).map(|x| *x).ok(), Some(benny.clone()));

    person = AnyBox::new(benny.clone(), &tb);
    assert_eq!(person.downcast_ref_unchecked(&tb), &benny);
    assert_eq!(person.downcast_mut_unchecked(&tb), &mut benny);
    assert_eq!(*person.downcast_unchecked(&tb), benny);

    person = AnyBox::new(benny.clone(), &tb);
    assert!(!person.is(&tc));
    assert_eq!(person.downcast_ref::<Chris>(&tc), None);
    assert_eq!(person.downcast_mut::<Chris>(&tc), None);

    let as_benny: &Benny = person.downcast_ref(&tb).unwrap();
    assert_eq!(Parameterized::<&i32, String>::test(as_benny, &i123, &empty), 123);
    person = AnyBox::new(Chris, &tc);
    let as_chris: &Chris = person.downcast_ref(&tc).unwrap();
    assert_eq!(Parameterized::<&i32, String>::test(as_chris, &i123, &empty), 0);

    assert!(person.downcast::<Benny>(&tb).is_err());
}

#[test]
fn constrained() {
    let mut benny = Benny { kilograms_of_food: 13 };
    let tb = Tag::<Benny>::of();
    let tc = Tag::<Chris>::of();
    let mut person = AnyBox::new(benny.clone(), &tb);

    assert!(person.is(&tb));
    assert_eq!(person.downcast_ref(&tb), Some(&benny));
    assert_eq!(person.downcast_mut(&tb), Some(&mut benny));
    assert_eq!(person.downcast(&tb).map(|x| *x).ok(), Some(benny.clone()));

    person = AnyBox::new(benny.clone(), &tb);
    assert_eq!(person.downcast_ref_unchecked(&tb), &benny);
    assert_eq!(person.downcast_mut_unchecked(&tb), &mut benny);
    assert_eq!(*person.downcast_unchecked(&tb), benny);

    person = AnyBox::new(benny.clone(), &tb);
    assert!(!person.is(&tc));
    assert_eq!(person.downcast_ref::<Chris>(&tc), None);
    assert_eq!(person.downcast_mut::<Chris>(&tc), None);

    let as_benny: &Benny = person.downcast_ref(&tb).unwrap();
    assert_eq!(Constrained::<u8, f32, DeepStruct>::roundness(as_benny), 2i16);
    person = AnyBox::new(Chris, &tc);
    let as_chris: &Chris = person.downcast_ref(&tc).unwrap();
    assert_eq!(Constrained::<u8, f32, DeepStruct>::roundness(as_chris), 5i16);

    assert!(person.downcast::<Benny>(&tb).is_err());
}

#[test]
fn mutation_is_visible() {
    let tb = Tag::<Benny>::of();
    let mut person = AnyBox::new(Benny { kilograms_of_food: 13 }, &tb);

    let inside = person.downcast_mut(&tb).unwrap();
    inside.kilograms_of_food = 99;

    assert_eq!(person.downcast_ref(&tb), Some(&Benny { kilograms_of_food: 99 }));
    assert_eq!(person.downcast(&tb).map(|x| *x).ok(), Some(Benny { kilograms_of_food: 99 }));
}

#[test]
fn weight_through_person_impls() {
    let tb = Tag::<Benny>::of();
    let tc = Tag::<Chris>::of();
    let benny_box = AnyBox::new(Benny { kilograms_of_food: 13 }, &tb);
    let chris_box = AnyBox::new(Chris, &tc);

    assert_eq!(benny_box.downcast_ref(&tb).unwrap().weight(), 73);
    assert_eq!(chris_box.downcast_ref(&tc).unwrap().weight(), -5);
}

#[test]
fn type_id_is_stable() {
    let tb = Tag::<Benny>::of();
    let tc = Tag::<Chris>::of();
    let person = AnyBox::new(Benny { kilograms_of_food: 13 }, &tb);

    let first = person.get_type_id();
    let second = person.get_type_id();
    assert!(first == second);
    assert!(tb.matches(&first));
    assert!(!tc.matches(&first));

    assert_eq!(person.is(&tb), person.is(&tb));
    assert!(person.is(&tb));
    assert!(person.is(&tb));
}

#[test]
fn value_and_box_share_type_id() {
    let benny = Benny { kilograms_of_food: 13 };
    let from_value = benny.get_type_id();

    let (person, tag) = AnyBox::from_any(benny);
    assert!(person.get_type_id() == from_value);
    assert!(tag.to_type_id() == from_value);
    assert!(Benny::type_tag().matches(&from_value));
}
