use vstd::prelude::*;

verus! {

/// # Item
///
/// Item points to a want, a class, or a specific good.
#[derive(Clone, Copy, Debug, Hash, PartialEq, Eq, Structural)]
pub enum Item {
    Want(usize),
    Class(usize),
    Good(usize),
}

impl Item {
    /// The id carried by the item, whatever its kind.
    pub open spec fn id(self) -> usize {
        match self {
            Item::Want(id) => id,
            Item::Class(id) => id,
            Item::Good(id) => id,
        }
    }

    /// # Unwrap
    ///
    /// Gets the ID in the item.
    pub fn unwrap(&self) -> (id: usize)
        ensures
            id == self.id(),
    {
        match self {
            Item::Want(id) => *id,
            Item::Class(id) => *id,
            Item::Good(id) => *id,
        }
    }

    /// # Is Want
    ///
    /// If the item is a want.
    pub fn is_want(&self) -> (r: bool)
        ensures
            r <==> *self is Want,
    {
        match self {
            Item::Want(_) => true,
            Item::Class(_) | Item::Good(_) => false,
        }
    }

    /// # Is Class
    ///
    /// If the item is a class.
    pub fn is_class(&self) -> (r: bool)
        ensures
            r <==> *self is Class,
    {
        match self {
            Item::Class(_) => true,
            Item::Want(_) | Item::Good(_) => false,
        }
    }

    /// # Is Good
    ///
    /// If the item is a good.
    pub fn is_good(&self) -> (r: bool)
        ensures
            r <==> *self is Good,
    {
        match self {
            Item::Good(_) => true,
            Item::Class(_) | Item::Want(_) => false,
        }
    }
}

/// Every item is of exactly one kind: a want, a class or a good.
pub proof fn item_has_exactly_one_kind(item: Item)
    ensures
        (item is Want) as int + (item is Class) as int + (item is Good) as int == 1,
{
}

/// # Product
///
/// A product is specifically a class or good.
///
/// This always points to a good of some kind or another.
#[derive(Clone, Copy, Debug, Hash, PartialEq, Eq, Structural)]
pub enum Product {
    Class(usize),
    Good(usize),
}

impl Product {
    /// The id carried by the product, whatever its kind.
    pub open spec fn id(self) -> usize {
        match self {
            Product::Class(id) => id,
            Product::Good(id) => id,
        }
    }

    /// # Unwrap
    ///
    /// Gets the ID in the product.
    pub fn unwrap(&self) -> (id: usize)
        ensures
            id == self.id(),
    {
        match self {
            Product::Class(id) => *id,
            Product::Good(id) => *id,
        }
    }

    /// # Is Class
    ///
    /// If the product is a class.
    pub fn is_class(&self) -> (r: bool)
        ensures
            r <==> *self is Class,
    {
        match self {
            Product::Class(_) => true,
            Product::Good(_) => false,
        }
    }

    /// # Is Good
    ///
    /// If the product is a good.
    pub fn is_good(&self) -> (r: bool)
        ensures
            r <==> *self is Good,
    {
        match self {
            Product::Good(_) => true,
            Product::Class(_) => false,
        }
    }
}

/// Every product is either a class or a good, never both.
pub proof fn product_is_class_or_good(product: Product)
    ensures
        (product is Class) != (product is Good),
{
}

} // verus!
