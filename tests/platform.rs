use tomography::platform::fs::all;

#[test]
fn it_werks() {
    println!("{:#?}", all());
}
