//! The products under study: the folders under the root of the studies
//! that are named like a product.

use vstd::prelude::*;

use crate::text::lowercase;
use crate::v2::error::{Error, ErrorView};
use crate::v2::purpose::{
    entries_at, entries_of, file_name, file_name_of, folders_of, list, EntryView, Folder,
    FolderView,
};
use crate::v2::trial::{list_trials, trials_in, trials_of, Trial, TrialView};

verus! {

/// What the name of a product looks like: `ak` and three digits at its
/// beginning.
pub const PRODUCT_NAME: &'static str = "^ak\\d{3}";

/// Whether the regular expression `pattern` matches somewhere in
/// `haystack`; `None` when `pattern` is no regular expression.
pub uninterp spec fn regex_search(pattern: Seq<char>, haystack: Seq<char>) -> Option<bool>;

/// `regex::Regex::new` followed by `regex::Regex::is_match` on the
/// compiled expression: whether `pattern` matches somewhere in `haystack`,
/// or `None` when `pattern` does not compile. The answer depends on the
/// two texts alone.
#[verifier::external_body]
fn regex_is_match(pattern: &str, haystack: &str) -> (r: Option<bool>)
    ensures
        r == regex_search(pattern@, haystack@),
{
    match regex::Regex::new(pattern) {
        Ok(re) => Some(re.is_match(haystack)),
        Err(_) => None,
    }
}

/// Whether a name is that of a product.
pub open spec fn is_product_name(name: Seq<char>) -> bool {
    regex_search(PRODUCT_NAME@, name) == Some(true)
}

/// What follows the matching of a name against the pattern of product
/// names: the name is a product's when the pattern matched.
pub fn product_name_matched(searched: Option<bool>) -> (r: bool)
    ensures
        r == (searched == Some(true)),
{
    match searched {
        Some(found) => found,
        None => false,
    }
}

/// Whether a name is that of a product.
pub fn valid_product_name(name: &str) -> (r: bool)
    ensures
        r == is_product_name(name@),
{
    product_name_matched(regex_is_match(PRODUCT_NAME, name))
}

/// A product with its trials.
#[derive(Debug, Clone)]
pub struct Product {
    pub id: String,
    pub name: String,
    pub trials: Vec<Trial>,
}

/// The mathematical content of a [`Product`].
pub struct ProductView {
    pub id: Seq<char>,
    pub name: Seq<char>,
    pub trials: Seq<TrialView>,
}

impl View for Product {
    type V = ProductView;

    open spec fn view(&self) -> ProductView {
        ProductView { id: self.id@, name: self.name@, trials: trials_of(self.trials@) }
    }
}

/// The views of a list of products.
pub open spec fn products_of(list: Seq<Product>) -> Seq<ProductView> {
    list.map_values(|p: Product| p@)
}

/// The view of a product that may not be one.
pub open spec fn product_view(p: Option<Product>) -> Option<ProductView> {
    match p {
        Some(p) => Some(p@),
        None => None,
    }
}

/// The name of the product that a folder would stand for: the folder's
/// name in lower case.
pub open spec fn product_name_of(root: Seq<char>) -> Seq<char> {
    lowercase(file_name_of(root))
}

/// The product of the name `name` that the folder `root` stands for:
/// none, when the name is not that of a product; else the product with
/// the trials under the folder. The outer `None` stands for a product's
/// folder that was not listed.
pub open spec fn product_named(tree: Seq<FolderView>, name: Seq<char>, root: Seq<char>) -> Option<
    Option<ProductView>,
> {
    if !is_product_name(name) {
        Some(None)
    } else {
        match trials_in(tree, name, root) {
            None => None,
            Some(trials) => Some(Some(ProductView { id: name, name, trials })),
        }
    }
}

/// The product that the folder `root` stands for, under the folder's name
/// in lower case.
pub open spec fn product_at(tree: Seq<FolderView>, root: Seq<char>) -> Option<Option<ProductView>> {
    product_named(tree, product_name_of(root), root)
}

/// The products that the entries from `from` on stand for, or `None` when
/// the folder of one of them was not listed.
pub open spec fn products_from(tree: Seq<FolderView>, entries: Seq<EntryView>, from: int) -> Option<
    Seq<ProductView>,
>
    decreases entries.len() - from,
{
    if from < 0 || from >= entries.len() {
        Some(Seq::empty())
    } else if entries[from].is_file {
        products_from(tree, entries, from + 1)
    } else {
        match product_at(tree, entries[from].path) {
            None => None,
            Some(first) => match products_from(tree, entries, from + 1) {
                None => None,
                Some(rest) => Some(
                    (match first {
                        Some(p) => seq![p],
                        None => Seq::empty(),
                    }) + rest,
                ),
            },
        }
    }
}

/// The products under the folder `root`, or `None` when that folder or
/// the folder of a product was not listed.
pub open spec fn products_in(tree: Seq<FolderView>, root: Seq<char>) -> Option<Seq<ProductView>> {
    match entries_at(tree, root, 0) {
        None => None,
        Some(entries) => products_from(tree, entries, 0),
    }
}

/// The products under the root of the studies. Fails with
/// `ListProjectFailed` when the root, or the folder of a product, was not
/// listed.
pub fn list_products(root: &str, tree: &Vec<Folder>) -> (r: Result<Vec<Product>, Error>)
    ensures
        r is Ok <==> products_in(folders_of(tree@), root@) is Some,
        r matches Ok(list) ==> Some(products_of(list@)) == products_in(folders_of(tree@), root@),
        r matches Err(e) ==> e@ == ErrorView::ListProjectFailed,
{
    let mut products: Vec<Product> = Vec::new();
    let entries = match list(tree, root) {
        Some(entries) => entries,
        None => {
            return Err(Error::ListProjectFailed);
        },
    };
    let ghost all = entries_of(entries@);
    let ghost folders = folders_of(tree@);
    let mut i: usize = 0;
    proof {
        assert(products_of(products@) =~= Seq::empty());
        match products_from(folders, all, 0) {
            Some(rest) => {
                assert(Seq::<ProductView>::empty() + rest =~= rest);
            },
            None => {},
        }
    }
    while i < entries.len()
        invariant
            i <= entries.len(),
            all == entries_of(entries@),
            folders == folders_of(tree@),
            products_in(folders, root@) == products_from(folders, all, 0),
            products_from(folders, all, 0) == (match products_from(folders, all, i as int) {
                Some(rest) => Some(products_of(products@) + rest),
                None => None::<Seq<ProductView>>,
            }),
        decreases entries.len() - i,
    {
        let entry = &entries[i];
        assert(all[i as int] == entry@);
        if !entry.is_file {
            let found = match fetch_product(entry.path.as_str(), tree) {
                Ok(found) => found,
                Err(e) => {
                    return Err(e);
                },
            };
            let ghost before = products_of(products@);
            if let Some(product) = found {
                let ghost first = product@;
                products.push(product);
                proof {
                    assert(products_of(products@) =~= before.push(first));
                    match products_from(folders, all, i + 1) {
                        Some(rest) => {
                            assert(before + (seq![first] + rest) =~= before.push(first) + rest);
                        },
                        None => {},
                    }
                }
            } else {
                proof {
                    match products_from(folders, all, i + 1) {
                        Some(rest) => {
                            assert(before + (Seq::<ProductView>::empty() + rest) =~= before + rest);
                        },
                        None => {},
                    }
                }
            }
        }
        i = i + 1;
    }
    proof {
        assert(products_of(products@) + Seq::empty() =~= products_of(products@));
    }
    Ok(products)
}

/// The product of the name `product` that the folder `root` stands for,
/// when the name is a product's. Fails with `ListProjectFailed` when the
/// folder of a product was not listed.
pub fn fetch_named_product(product: String, root: &str, tree: &Vec<Folder>) -> (r: Result<
    Option<Product>,
    Error,
>)
    ensures
        r is Ok <==> product_named(folders_of(tree@), product@, root@) is Some,
        r matches Ok(p) ==> Some(product_view(p)) == product_named(
            folders_of(tree@),
            product@,
            root@,
        ),
        r matches Err(e) ==> e@ == ErrorView::ListProjectFailed,
{
    if !valid_product_name(product.as_str()) {
        Ok(None)
    } else {
        let trials = match list_trials(product.as_str(), root, tree) {
            Ok(trials) => trials,
            Err(e) => {
                return Err(e);
            },
        };
        Ok(Some(Product { id: product.clone(), name: product, trials }))
    }
}

/// The product that the folder `root` stands for, when the folder is
/// named like a product. Fails with `ListProjectFailed` when the folder
/// of a product was not listed.
pub fn fetch_product(root: &str, tree: &Vec<Folder>) -> (r: Result<Option<Product>, Error>)
    ensures
        r is Ok <==> product_at(folders_of(tree@), root@) is Some,
        r matches Ok(p) ==> Some(product_view(p)) == product_at(folders_of(tree@), root@),
        r matches Err(e) ==> e@ == ErrorView::ListProjectFailed,
{
    fetch_named_product(file_name(root).as_str().to_lowercase(), root, tree)
}

} // verus!
