//! The product data model: a product owns feature flags and has users.

use vstd::prelude::*;

use crate::oid::{fresh_object_id_hex, is_object_id_hex};
use crate::text::clone_strings;

verus! {

/// Spec-level model of a [`Product`].
#[verifier::ext_equal]
pub struct ProductView {
    pub oid: Option<Seq<char>>,
    pub name: Seq<char>,
    pub users: Seq<Seq<char>>,
}

impl ProductView {
    /// The product every builder starts from: unsaved and without users.
    pub open spec fn default_product() -> ProductView {
        ProductView { oid: None, name: "default_product"@, users: Seq::empty() }
    }
}

/// A product to which feature flags belong.
#[derive(Clone, Debug, PartialEq)]
pub struct Product {
    /// Unique id of the product, assigned by the store on creation.
    pub oid: Option<String>,
    /// Product name.
    pub name: String,
    /// Ids of the users who consume the product.
    pub users: Vec<String>,
}

impl View for Product {
    type V = ProductView;

    open spec fn view(&self) -> ProductView {
        ProductView { oid: self.oid.deep_view(), name: self.name@, users: self.users.deep_view() }
    }
}

impl Default for Product {
    /// The placeholder product: unsaved and without users.
    fn default() -> (product: Product)
        ensures
            product@ == ProductView::default_product(),
    {
        let product = Product {
            oid: None,
            name: "default_product".to_owned(),
            users: Vec::new(),
        };
        proof {
            assert(product@ =~= ProductView::default_product());
        }
        product
    }
}

impl Product {
    /// Returns a [`ProductBuilder`] to eventually construct a [`Product`].
    pub fn builder() -> (b: ProductBuilder)
        ensures
            b@ == ProductView::default_product(),
    {
        ProductBuilder::new()
    }

    /// Renders the product for handing out, with an id that is always
    /// present: a freshly drawn placeholder stands in for a product that was
    /// never persisted.
    pub fn get_spec_safe_product(&self) -> (safe: SpecSafeProduct)
        ensures
            match self@.oid {
                Some(id) => safe.oid@ == id,
                None => is_object_id_hex(safe.oid@),
            },
            safe.name@ == self@.name,
            safe.users.deep_view() == self@.users,
    {
        let safe = SpecSafeProduct {
            oid: match &self.oid {
                Some(id) => id.clone(),
                None => fresh_object_id_hex(),
            },
            name: self.name.clone(),
            users: clone_strings(&self.users),
        };
        proof {
            assert(safe.users.deep_view() =~= self@.users);
        }
        safe
    }
}

/// A rendering of a [`Product`] that is safe to hand out: the id is always
/// present.
#[derive(Clone, Debug, PartialEq)]
pub struct SpecSafeProduct {
    /// Unique id of the product.
    pub oid: String,
    /// Product name.
    pub name: String,
    /// Ids of the users who consume the product.
    pub users: Vec<String>,
}

/// Accumulates the fields of a [`Product`] before it is built.
#[derive(Clone, Debug)]
pub struct ProductBuilder {
    /// Id assigned by the store, if the product was already persisted.
    pub oid: Option<String>,
    /// Product name.
    pub name: String,
    /// Ids of the users who consume the product.
    pub users: Vec<String>,
}

impl View for ProductBuilder {
    type V = ProductView;

    open spec fn view(&self) -> ProductView {
        ProductView { oid: self.oid.deep_view(), name: self.name@, users: self.users.deep_view() }
    }
}

impl Default for ProductBuilder {
    /// Starts from the same fields as the default product.
    fn default() -> (b: ProductBuilder)
        ensures
            b@ == ProductView::default_product(),
    {
        ProductBuilder::new()
    }
}

impl ProductBuilder {
    /// Starts from the same fields as the default product.
    fn new() -> (b: ProductBuilder)
        ensures
            b@ == ProductView::default_product(),
    {
        let product = Product::default();
        let b = ProductBuilder { oid: product.oid, name: product.name, users: product.users };
        proof {
            assert(b@ =~= ProductView::default_product());
        }
        b
    }

    /// Sets the id the store assigned to the product.
    pub fn with_oid(self, oid: String) -> (b: ProductBuilder)
        ensures
            b@ == (ProductView { oid: Some(oid@), ..self@ }),
    {
        let mut b = self;
        b.oid = Some(oid);
        b
    }

    /// Sets the product's name.
    pub fn with_name(self, name: &str) -> (b: ProductBuilder)
        ensures
            b@ == (ProductView { name: name@, ..self@ }),
    {
        let mut b = self;
        b.name = name.to_owned();
        b
    }

    /// Sets the users who consume the product.
    pub fn with_users(self, users: Vec<String>) -> (b: ProductBuilder)
        ensures
            b@ == (ProductView { users: users.deep_view(), ..self@ }),
    {
        let mut b = self;
        b.users = users;
        b
    }

    /// Builds the product, consuming the builder.
    pub fn build(self) -> (product: Product)
        ensures
            product@ == self@,
    {
        Product { oid: self.oid, name: self.name, users: self.users }
    }
}

} // verus!
