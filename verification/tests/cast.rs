use grust_gio::cast::{
    AsAsyncResult, AsCancellable, AsFile, AsFileInputStream, AsInputStream, AsObject,
};
use grust_gio::classes::{AsyncResult, Cancellable, FileInputStream, InputStream};
use grust_gio::file::File;
use grust_gio::gtype::GType;
use grust_gio::object::{type_of, Object, ObjectType, Upcast};
use grust_gio::refcount::Ref;
use grust_gio::types::{gpointer, FALSE, NULL, TRUE};
use grust_gio::wrap::{from_raw, Wrapper};

fn address_as_object<T: AsObject>(t: &T) -> gpointer {
    t.as_object().as_mut_ptr()
}

fn address_of_beginning<D, B>(at: gpointer) -> gpointer
where
    D: Upcast<B>,
    B: Wrapper,
{
    let whole = D::from_raw(at);
    let beginning: &B = Upcast::<B>::upcast(&whole);
    beginning.as_mut_ptr()
}

fn address_as_input_stream<T: AsInputStream>(t: &T) -> gpointer {
    t.as_input_stream().as_mut_ptr()
}

#[test]
fn a_view_is_at_the_address_it_was_read_at() {
    assert_eq!(from_raw::<Object>(0x1000).as_mut_ptr(), 0x1000);
    assert_eq!(from_raw::<AsyncResult>(0x1008).as_mut_ptr(), 0x1008);
    assert_eq!(from_raw::<Cancellable>(0x1010).as_mut_ptr(), 0x1010);
    assert_eq!(from_raw::<InputStream>(0x1018).as_mut_ptr(), 0x1018);
    assert_eq!(from_raw::<FileInputStream>(0x1020).as_mut_ptr(), 0x1020);
    assert_eq!(from_raw::<File>(0x1028).as_mut_ptr(), 0x1028);
    assert_eq!(from_raw::<File>(usize::MAX).as_mut_ptr(), usize::MAX);
    assert_eq!(from_raw::<Object>(NULL).as_mut_ptr(), NULL);
}

#[test]
fn the_address_decides_the_view() {
    let a: FileInputStream = from_raw(0x2000);
    let b: FileInputStream = from_raw(a.as_mut_ptr());
    assert_eq!(a, b);
    let c: FileInputStream = from_raw(0x2008);
    assert_ne!(a, c);
    assert_eq!(FileInputStream::from_raw(0x2000), a);
}

#[test]
fn upcast_reads_the_instance_at_the_same_address() {
    let c: Cancellable = from_raw(0x3000);
    let o: &Object = c.upcast();
    assert_eq!(o.as_mut_ptr(), 0x3000);
    assert_eq!(*o, from_raw::<Object>(0x3000));

    let s: InputStream = from_raw(0x3010);
    let o: &Object = s.upcast();
    assert_eq!(o.as_mut_ptr(), 0x3010);

    let f: FileInputStream = from_raw(0x3020);
    let s: &InputStream = f.upcast();
    assert_eq!(s.as_mut_ptr(), 0x3020);
    assert_eq!(*s, from_raw::<InputStream>(0x3020));
    let o: &Object = f.upcast();
    assert_eq!(o.as_mut_ptr(), 0x3020);
}

#[test]
fn upcast_to_the_same_class_is_the_value_itself() {
    let f: File = from_raw(0x3100);
    let same: &File = f.upcast();
    assert_eq!(*same, f);
    assert_eq!(f.as_file().as_mut_ptr(), 0x3100);
    let r: AsyncResult = from_raw(0x3108);
    assert_eq!(r.as_async_result().as_mut_ptr(), 0x3108);
    let o: Object = from_raw(0x3110);
    assert_eq!(*o.as_object(), o);
}

#[test]
fn accessors_in_sequence_reach_the_same_object() {
    let f: FileInputStream = from_raw(0x4000);
    let stepwise = f.as_file_input_stream().as_input_stream().as_object();
    let direct = f.as_object();
    assert_eq!(stepwise, direct);
    assert_eq!(stepwise.as_mut_ptr(), 0x4000);
    assert_eq!(direct.as_mut_ptr(), f.as_mut_ptr());
    assert_eq!(f.as_input_stream().as_object(), direct);
}

#[test]
fn any_class_below_reads_as_the_class_above() {
    let f: FileInputStream = from_raw(0x5000);
    let s: InputStream = from_raw(0x5008);
    let c: Cancellable = from_raw(0x5010);
    let o: Object = from_raw(0x5018);
    assert_eq!(address_as_object(&f), 0x5000);
    assert_eq!(address_as_object(&s), 0x5008);
    assert_eq!(address_as_object(&c), 0x5010);
    assert_eq!(address_as_object(&o), 0x5018);
    assert_eq!(address_as_input_stream(&f), 0x5000);
    assert_eq!(address_as_input_stream(&s), 0x5008);
    assert_eq!(c.as_cancellable().as_mut_ptr(), 0x5010);
}

#[test]
fn classes_are_known_by_their_registered_names() {
    assert_eq!(File::get_type().name(), "GFile");
    assert_eq!(AsyncResult::get_type().name(), "GAsyncResult");
    assert_eq!(FileInputStream::get_type().name(), "GFileInputStream");
    assert_eq!(type_of::<File>(), GType::from_name("GFile"));
    assert_ne!(type_of::<File>(), type_of::<FileInputStream>());
    assert_eq!(type_of::<AsyncResult>(), AsyncResult::get_type());
}

#[test]
fn a_handle_refers_to_the_instance_it_was_made_for() {
    let file: Ref<File> = Ref::from_raw(0x6000);
    assert_eq!(file.get().as_mut_ptr(), 0x6000);
    assert_eq!(*file.get(), from_raw::<File>(0x6000));
    assert_eq!(file.into_raw(), 0x6000);
    let stream: Ref<FileInputStream> = Ref::from_raw(0x6008);
    assert_eq!(stream.get().as_input_stream().as_object().as_mut_ptr(), 0x6008);
}

#[test]
fn truth_values_and_null() {
    assert_eq!(FALSE, 0);
    assert_eq!(TRUE, 1);
    assert_eq!(NULL, 0);
}

#[test]
fn every_declared_beginning_is_at_the_address_of_the_whole() {
    assert_eq!(address_of_beginning::<Cancellable, Object>(0x7000), 0x7000);
    assert_eq!(address_of_beginning::<InputStream, Object>(0x7008), 0x7008);
    assert_eq!(address_of_beginning::<FileInputStream, InputStream>(0x7010), 0x7010);
    assert_eq!(address_of_beginning::<FileInputStream, Object>(0x7018), 0x7018);
    assert_eq!(address_of_beginning::<File, File>(0x7020), 0x7020);
}
