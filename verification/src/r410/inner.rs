//! The inner product, written out coefficient by coefficient.

use vstd::prelude::*;
use crate::field::Field;
use crate::r410::products::partial_sum;
use crate::r410::products::Product;
use crate::r410::R410;

verus! {

impl<T: Field> R410<T> {
    /// The inner product, `self | b`.
    pub fn bitor(self, b: R410<T>) -> (r: Self)
        ensures
            r == self.inner_spec(b),
    {
        let a = self;
        Self {
            s: inner_s(&a, &b),
            e1: inner_e1(&a, &b),
            e2: inner_e2(&a, &b),
            e3: inner_e3(&a, &b),
            ep: inner_ep(&a, &b),
            en: inner_en(&a, &b),
            e12: inner_e12(&a, &b),
            e13: inner_e13(&a, &b),
            e1p: inner_e1p(&a, &b),
            e1n: inner_e1n(&a, &b),
            e23: inner_e23(&a, &b),
            e2p: inner_e2p(&a, &b),
            e2n: inner_e2n(&a, &b),
            e3p: inner_e3p(&a, &b),
            e3n: inner_e3n(&a, &b),
            epn: inner_epn(&a, &b),
            e123: inner_e123(&a, &b),
            e12p: inner_e12p(&a, &b),
            e12n: inner_e12n(&a, &b),
            e13p: inner_e13p(&a, &b),
            e13n: inner_e13n(&a, &b),
            e1pn: inner_e1pn(&a, &b),
            e23p: inner_e23p(&a, &b),
            e23n: inner_e23n(&a, &b),
            e2pn: inner_e2pn(&a, &b),
            e3pn: inner_e3pn(&a, &b),
            e123p: inner_e123p(&a, &b),
            e123n: inner_e123n(&a, &b),
            e12pn: inner_e12pn(&a, &b),
            e13pn: inner_e13pn(&a, &b),
            e23pn: inner_e23pn(&a, &b),
            e123pn: inner_e123pn(&a, &b),
        }
    }
}

/// The coefficient of `1` in the inner product of `a` and `b`.
fn inner_s<T: Field>(a: &R410<T>, b: &R410<T>) -> (r: T)
    ensures
        r == partial_sum(Product::Inner, *a, *b, 0, 31),
{
    let r = b.s.mul(a.s);
    assert(r == partial_sum(Product::Inner, *a, *b, 0, 0));
    let r = r.add(b.e1.mul(a.e1));
    assert(r == partial_sum(Product::Inner, *a, *b, 0, 1));
    let r = r.add(b.e2.mul(a.e2));
    assert(r == partial_sum(Product::Inner, *a, *b, 0, 2));
    let r = r.add(b.e3.mul(a.e3));
    assert(r == partial_sum(Product::Inner, *a, *b, 0, 3));
    let r = r.add(b.ep.mul(a.ep));
    assert(r == partial_sum(Product::Inner, *a, *b, 0, 4));
    let r = r.sub(b.en.mul(a.en));
    assert(r == partial_sum(Product::Inner, *a, *b, 0, 5));
    let r = r.sub(b.e12.mul(a.e12));
    assert(r == partial_sum(Product::Inner, *a, *b, 0, 6));
    let r = r.sub(b.e13.mul(a.e13));
    assert(r == partial_sum(Product::Inner, *a, *b, 0, 7));
    let r = r.sub(b.e1p.mul(a.e1p));
    assert(r == partial_sum(Product::Inner, *a, *b, 0, 8));
    let r = r.add(b.e1n.mul(a.e1n));
    assert(r == partial_sum(Product::Inner, *a, *b, 0, 9));
    let r = r.sub(b.e23.mul(a.e23));
    assert(r == partial_sum(Product::Inner, *a, *b, 0, 10));
    let r = r.sub(b.e2p.mul(a.e2p));
    assert(r == partial_sum(Product::Inner, *a, *b, 0, 11));
    let r = r.add(b.e2n.mul(a.e2n));
    assert(r == partial_sum(Product::Inner, *a, *b, 0, 12));
    let r = r.sub(b.e3p.mul(a.e3p));
    assert(r == partial_sum(Product::Inner, *a, *b, 0, 13));
    let r = r.add(b.e3n.mul(a.e3n));
    assert(r == partial_sum(Product::Inner, *a, *b, 0, 14));
    let r = r.add(b.epn.mul(a.epn));
    assert(r == partial_sum(Product::Inner, *a, *b, 0, 15));
    let r = r.sub(b.e123.mul(a.e123));
    assert(r == partial_sum(Product::Inner, *a, *b, 0, 16));
    let r = r.sub(b.e12p.mul(a.e12p));
    assert(r == partial_sum(Product::Inner, *a, *b, 0, 17));
    let r = r.add(b.e12n.mul(a.e12n));
    assert(r == partial_sum(Product::Inner, *a, *b, 0, 18));
    let r = r.sub(b.e13p.mul(a.e13p));
    assert(r == partial_sum(Product::Inner, *a, *b, 0, 19));
    let r = r.add(b.e13n.mul(a.e13n));
    assert(r == partial_sum(Product::Inner, *a, *b, 0, 20));
    let r = r.add(b.e1pn.mul(a.e1pn));
    assert(r == partial_sum(Product::Inner, *a, *b, 0, 21));
    let r = r.sub(b.e23p.mul(a.e23p));
    assert(r == partial_sum(Product::Inner, *a, *b, 0, 22));
    let r = r.add(b.e23n.mul(a.e23n));
    assert(r == partial_sum(Product::Inner, *a, *b, 0, 23));
    let r = r.add(b.e2pn.mul(a.e2pn));
    assert(r == partial_sum(Product::Inner, *a, *b, 0, 24));
    let r = r.add(b.e3pn.mul(a.e3pn));
    assert(r == partial_sum(Product::Inner, *a, *b, 0, 25));
    let r = r.add(b.e123p.mul(a.e123p));
    assert(r == partial_sum(Product::Inner, *a, *b, 0, 26));
    let r = r.sub(b.e123n.mul(a.e123n));
    assert(r == partial_sum(Product::Inner, *a, *b, 0, 27));
    let r = r.sub(b.e12pn.mul(a.e12pn));
    assert(r == partial_sum(Product::Inner, *a, *b, 0, 28));
    let r = r.sub(b.e13pn.mul(a.e13pn));
    assert(r == partial_sum(Product::Inner, *a, *b, 0, 29));
    let r = r.sub(b.e23pn.mul(a.e23pn));
    assert(r == partial_sum(Product::Inner, *a, *b, 0, 30));
    let r = r.sub(b.e123pn.mul(a.e123pn));
    assert(r == partial_sum(Product::Inner, *a, *b, 0, 31));
    r
}

/// The coefficient of `e1` in the inner product of `a` and `b`.
fn inner_e1<T: Field>(a: &R410<T>, b: &R410<T>) -> (r: T)
    ensures
        r == partial_sum(Product::Inner, *a, *b, 1, 31),
{
    let r = b.e1.mul(a.s);
    assert(r == partial_sum(Product::Inner, *a, *b, 1, 0));
    let r = r.add(b.s.mul(a.e1));
    assert(r == partial_sum(Product::Inner, *a, *b, 1, 1));
    let r = r.sub(b.e12.mul(a.e2));
    assert(r == partial_sum(Product::Inner, *a, *b, 1, 2));
    let r = r.sub(b.e13.mul(a.e3));
    assert(r == partial_sum(Product::Inner, *a, *b, 1, 3));
    let r = r.sub(b.e1p.mul(a.ep));
    assert(r == partial_sum(Product::Inner, *a, *b, 1, 4));
    let r = r.add(b.e1n.mul(a.en));
    assert(r == partial_sum(Product::Inner, *a, *b, 1, 5));
    let r = r.add(b.e2.mul(a.e12));
    assert(r == partial_sum(Product::Inner, *a, *b, 1, 6));
    let r = r.add(b.e3.mul(a.e13));
    assert(r == partial_sum(Product::Inner, *a, *b, 1, 7));
    let r = r.add(b.ep.mul(a.e1p));
    assert(r == partial_sum(Product::Inner, *a, *b, 1, 8));
    let r = r.sub(b.en.mul(a.e1n));
    assert(r == partial_sum(Product::Inner, *a, *b, 1, 9));
    let r = r.sub(b.e123.mul(a.e23));
    assert(r == partial_sum(Product::Inner, *a, *b, 1, 10));
    let r = r.sub(b.e12p.mul(a.e2p));
    assert(r == partial_sum(Product::Inner, *a, *b, 1, 11));
    let r = r.add(b.e12n.mul(a.e2n));
    assert(r == partial_sum(Product::Inner, *a, *b, 1, 12));
    let r = r.sub(b.e13p.mul(a.e3p));
    assert(r == partial_sum(Product::Inner, *a, *b, 1, 13));
    let r = r.add(b.e13n.mul(a.e3n));
    assert(r == partial_sum(Product::Inner, *a, *b, 1, 14));
    let r = r.add(b.e1pn.mul(a.epn));
    assert(r == partial_sum(Product::Inner, *a, *b, 1, 15));
    let r = r.sub(b.e23.mul(a.e123));
    assert(r == partial_sum(Product::Inner, *a, *b, 1, 16));
    let r = r.sub(b.e2p.mul(a.e12p));
    assert(r == partial_sum(Product::Inner, *a, *b, 1, 17));
    let r = r.add(b.e2n.mul(a.e12n));
    assert(r == partial_sum(Product::Inner, *a, *b, 1, 18));
    let r = r.sub(b.e3p.mul(a.e13p));
    assert(r == partial_sum(Product::Inner, *a, *b, 1, 19));
    let r = r.add(b.e3n.mul(a.e13n));
    assert(r == partial_sum(Product::Inner, *a, *b, 1, 20));
    let r = r.add(b.epn.mul(a.e1pn));
    assert(r == partial_sum(Product::Inner, *a, *b, 1, 21));
    let r = r.add(b.e123p.mul(a.e23p));
    assert(r == partial_sum(Product::Inner, *a, *b, 1, 22));
    let r = r.sub(b.e123n.mul(a.e23n));
    assert(r == partial_sum(Product::Inner, *a, *b, 1, 23));
    let r = r.sub(b.e12pn.mul(a.e2pn));
    assert(r == partial_sum(Product::Inner, *a, *b, 1, 24));
    let r = r.sub(b.e13pn.mul(a.e3pn));
    assert(r == partial_sum(Product::Inner, *a, *b, 1, 25));
    let r = r.sub(b.e23p.mul(a.e123p));
    assert(r == partial_sum(Product::Inner, *a, *b, 1, 26));
    let r = r.add(b.e23n.mul(a.e123n));
    assert(r == partial_sum(Product::Inner, *a, *b, 1, 27));
    let r = r.add(b.e2pn.mul(a.e12pn));
    assert(r == partial_sum(Product::Inner, *a, *b, 1, 28));
    let r = r.add(b.e3pn.mul(a.e13pn));
    assert(r == partial_sum(Product::Inner, *a, *b, 1, 29));
    let r = r.sub(b.e123pn.mul(a.e23pn));
    assert(r == partial_sum(Product::Inner, *a, *b, 1, 30));
    let r = r.sub(b.e23pn.mul(a.e123pn));
    assert(r == partial_sum(Product::Inner, *a, *b, 1, 31));
    r
}

/// The coefficient of `e2` in the inner product of `a` and `b`.
fn inner_e2<T: Field>(a: &R410<T>, b: &R410<T>) -> (r: T)
    ensures
        r == partial_sum(Product::Inner, *a, *b, 2, 31),
{
    let r = b.e2.mul(a.s);
    assert(r == partial_sum(Product::Inner, *a, *b, 2, 0));
    let r = r.add(b.e12.mul(a.e1));
    assert(r == partial_sum(Product::Inner, *a, *b, 2, 1));
    let r = r.add(b.s.mul(a.e2));
    assert(r == partial_sum(Product::Inner, *a, *b, 2, 2));
    let r = r.sub(b.e23.mul(a.e3));
    assert(r == partial_sum(Product::Inner, *a, *b, 2, 3));
    let r = r.sub(b.e2p.mul(a.ep));
    assert(r == partial_sum(Product::Inner, *a, *b, 2, 4));
    let r = r.add(b.e2n.mul(a.en));
    assert(r == partial_sum(Product::Inner, *a, *b, 2, 5));
    let r = r.sub(b.e1.mul(a.e12));
    assert(r == partial_sum(Product::Inner, *a, *b, 2, 6));
    let r = r.add(b.e123.mul(a.e13));
    assert(r == partial_sum(Product::Inner, *a, *b, 2, 7));
    let r = r.add(b.e12p.mul(a.e1p));
    assert(r == partial_sum(Product::Inner, *a, *b, 2, 8));
    let r = r.sub(b.e12n.mul(a.e1n));
    assert(r == partial_sum(Product::Inner, *a, *b, 2, 9));
    let r = r.add(b.e3.mul(a.e23));
    assert(r == partial_sum(Product::Inner, *a, *b, 2, 10));
    let r = r.add(b.ep.mul(a.e2p));
    assert(r == partial_sum(Product::Inner, *a, *b, 2, 11));
    let r = r.sub(b.en.mul(a.e2n));
    assert(r == partial_sum(Product::Inner, *a, *b, 2, 12));
    let r = r.sub(b.e23p.mul(a.e3p));
    assert(r == partial_sum(Product::Inner, *a, *b, 2, 13));
    let r = r.add(b.e23n.mul(a.e3n));
    assert(r == partial_sum(Product::Inner, *a, *b, 2, 14));
    let r = r.add(b.e2pn.mul(a.epn));
    assert(r == partial_sum(Product::Inner, *a, *b, 2, 15));
    let r = r.add(b.e13.mul(a.e123));
    assert(r == partial_sum(Product::Inner, *a, *b, 2, 16));
    let r = r.add(b.e1p.mul(a.e12p));
    assert(r == partial_sum(Product::Inner, *a, *b, 2, 17));
    let r = r.sub(b.e1n.mul(a.e12n));
    assert(r == partial_sum(Product::Inner, *a, *b, 2, 18));
    let r = r.sub(b.e123p.mul(a.e13p));
    assert(r == partial_sum(Product::Inner, *a, *b, 2, 19));
    let r = r.add(b.e123n.mul(a.e13n));
    assert(r == partial_sum(Product::Inner, *a, *b, 2, 20));
    let r = r.add(b.e12pn.mul(a.e1pn));
    assert(r == partial_sum(Product::Inner, *a, *b, 2, 21));
    let r = r.sub(b.e3p.mul(a.e23p));
    assert(r == partial_sum(Product::Inner, *a, *b, 2, 22));
    let r = r.add(b.e3n.mul(a.e23n));
    assert(r == partial_sum(Product::Inner, *a, *b, 2, 23));
    let r = r.add(b.epn.mul(a.e2pn));
    assert(r == partial_sum(Product::Inner, *a, *b, 2, 24));
    let r = r.sub(b.e23pn.mul(a.e3pn));
    assert(r == partial_sum(Product::Inner, *a, *b, 2, 25));
    let r = r.add(b.e13p.mul(a.e123p));
    assert(r == partial_sum(Product::Inner, *a, *b, 2, 26));
    let r = r.sub(b.e13n.mul(a.e123n));
    assert(r == partial_sum(Product::Inner, *a, *b, 2, 27));
    let r = r.sub(b.e1pn.mul(a.e12pn));
    assert(r == partial_sum(Product::Inner, *a, *b, 2, 28));
    let r = r.add(b.e123pn.mul(a.e13pn));
    assert(r == partial_sum(Product::Inner, *a, *b, 2, 29));
    let r = r.add(b.e3pn.mul(a.e23pn));
    assert(r == partial_sum(Product::Inner, *a, *b, 2, 30));
    let r = r.add(b.e13pn.mul(a.e123pn));
    assert(r == partial_sum(Product::Inner, *a, *b, 2, 31));
    r
}

/// The coefficient of `e3` in the inner product of `a` and `b`.
fn inner_e3<T: Field>(a: &R410<T>, b: &R410<T>) -> (r: T)
    ensures
        r == partial_sum(Product::Inner, *a, *b, 3, 31),
{
    let r = b.e3.mul(a.s);
    assert(r == partial_sum(Product::Inner, *a, *b, 3, 0));
    let r = r.add(b.e13.mul(a.e1));
    assert(r == partial_sum(Product::Inner, *a, *b, 3, 1));
    let r = r.add(b.e23.mul(a.e2));
    assert(r == partial_sum(Product::Inner, *a, *b, 3, 2));
    let r = r.add(b.s.mul(a.e3));
    assert(r == partial_sum(Product::Inner, *a, *b, 3, 3));
    let r = r.sub(b.e3p.mul(a.ep));
    assert(r == partial_sum(Product::Inner, *a, *b, 3, 4));
    let r = r.add(b.e3n.mul(a.en));
    assert(r == partial_sum(Product::Inner, *a, *b, 3, 5));
    let r = r.sub(b.e123.mul(a.e12));
    assert(r == partial_sum(Product::Inner, *a, *b, 3, 6));
    let r = r.sub(b.e1.mul(a.e13));
    assert(r == partial_sum(Product::Inner, *a, *b, 3, 7));
    let r = r.add(b.e13p.mul(a.e1p));
    assert(r == partial_sum(Product::Inner, *a, *b, 3, 8));
    let r = r.sub(b.e13n.mul(a.e1n));
    assert(r == partial_sum(Product::Inner, *a, *b, 3, 9));
    let r = r.sub(b.e2.mul(a.e23));
    assert(r == partial_sum(Product::Inner, *a, *b, 3, 10));
    let r = r.add(b.e23p.mul(a.e2p));
    assert(r == partial_sum(Product::Inner, *a, *b, 3, 11));
    let r = r.sub(b.e23n.mul(a.e2n));
    assert(r == partial_sum(Product::Inner, *a, *b, 3, 12));
    let r = r.add(b.ep.mul(a.e3p));
    assert(r == partial_sum(Product::Inner, *a, *b, 3, 13));
    let r = r.sub(b.en.mul(a.e3n));
    assert(r == partial_sum(Product::Inner, *a, *b, 3, 14));
    let r = r.add(b.e3pn.mul(a.epn));
    assert(r == partial_sum(Product::Inner, *a, *b, 3, 15));
    let r = r.sub(b.e12.mul(a.e123));
    assert(r == partial_sum(Product::Inner, *a, *b, 3, 16));
    let r = r.add(b.e123p.mul(a.e12p));
    assert(r == partial_sum(Product::Inner, *a, *b, 3, 17));
    let r = r.sub(b.e123n.mul(a.e12n));
    assert(r == partial_sum(Product::Inner, *a, *b, 3, 18));
    let r = r.add(b.e1p.mul(a.e13p));
    assert(r == partial_sum(Product::Inner, *a, *b, 3, 19));
    let r = r.sub(b.e1n.mul(a.e13n));
    assert(r == partial_sum(Product::Inner, *a, *b, 3, 20));
    let r = r.add(b.e13pn.mul(a.e1pn));
    assert(r == partial_sum(Product::Inner, *a, *b, 3, 21));
    let r = r.add(b.e2p.mul(a.e23p));
    assert(r == partial_sum(Product::Inner, *a, *b, 3, 22));
    let r = r.sub(b.e2n.mul(a.e23n));
    assert(r == partial_sum(Product::Inner, *a, *b, 3, 23));
    let r = r.add(b.e23pn.mul(a.e2pn));
    assert(r == partial_sum(Product::Inner, *a, *b, 3, 24));
    let r = r.add(b.epn.mul(a.e3pn));
    assert(r == partial_sum(Product::Inner, *a, *b, 3, 25));
    let r = r.sub(b.e12p.mul(a.e123p));
    assert(r == partial_sum(Product::Inner, *a, *b, 3, 26));
    let r = r.add(b.e12n.mul(a.e123n));
    assert(r == partial_sum(Product::Inner, *a, *b, 3, 27));
    let r = r.sub(b.e123pn.mul(a.e12pn));
    assert(r == partial_sum(Product::Inner, *a, *b, 3, 28));
    let r = r.sub(b.e1pn.mul(a.e13pn));
    assert(r == partial_sum(Product::Inner, *a, *b, 3, 29));
    let r = r.sub(b.e2pn.mul(a.e23pn));
    assert(r == partial_sum(Product::Inner, *a, *b, 3, 30));
    let r = r.sub(b.e12pn.mul(a.e123pn));
    assert(r == partial_sum(Product::Inner, *a, *b, 3, 31));
    r
}

/// The coefficient of `ep` in the inner product of `a` and `b`.
fn inner_ep<T: Field>(a: &R410<T>, b: &R410<T>) -> (r: T)
    ensures
        r == partial_sum(Product::Inner, *a, *b, 4, 31),
{
    let r = b.ep.mul(a.s);
    assert(r == partial_sum(Product::Inner, *a, *b, 4, 0));
    let r = r.add(b.e1p.mul(a.e1));
    assert(r == partial_sum(Product::Inner, *a, *b, 4, 1));
    let r = r.add(b.e2p.mul(a.e2));
    assert(r == partial_sum(Product::Inner, *a, *b, 4, 2));
    let r = r.add(b.e3p.mul(a.e3));
    assert(r == partial_sum(Product::Inner, *a, *b, 4, 3));
    let r = r.add(b.s.mul(a.ep));
    assert(r == partial_sum(Product::Inner, *a, *b, 4, 4));
    let r = r.add(b.epn.mul(a.en));
    assert(r == partial_sum(Product::Inner, *a, *b, 4, 5));
    let r = r.sub(b.e12p.mul(a.e12));
    assert(r == partial_sum(Product::Inner, *a, *b, 4, 6));
    let r = r.sub(b.e13p.mul(a.e13));
    assert(r == partial_sum(Product::Inner, *a, *b, 4, 7));
    let r = r.sub(b.e1.mul(a.e1p));
    assert(r == partial_sum(Product::Inner, *a, *b, 4, 8));
    let r = r.sub(b.e1pn.mul(a.e1n));
    assert(r == partial_sum(Product::Inner, *a, *b, 4, 9));
    let r = r.sub(b.e23p.mul(a.e23));
    assert(r == partial_sum(Product::Inner, *a, *b, 4, 10));
    let r = r.sub(b.e2.mul(a.e2p));
    assert(r == partial_sum(Product::Inner, *a, *b, 4, 11));
    let r = r.sub(b.e2pn.mul(a.e2n));
    assert(r == partial_sum(Product::Inner, *a, *b, 4, 12));
    let r = r.sub(b.e3.mul(a.e3p));
    assert(r == partial_sum(Product::Inner, *a, *b, 4, 13));
    let r = r.sub(b.e3pn.mul(a.e3n));
    assert(r == partial_sum(Product::Inner, *a, *b, 4, 14));
    let r = r.sub(b.en.mul(a.epn));
    assert(r == partial_sum(Product::Inner, *a, *b, 4, 15));
    let r = r.sub(b.e123p.mul(a.e123));
    assert(r == partial_sum(Product::Inner, *a, *b, 4, 16));
    let r = r.sub(b.e12.mul(a.e12p));
    assert(r == partial_sum(Product::Inner, *a, *b, 4, 17));
    let r = r.sub(b.e12pn.mul(a.e12n));
    assert(r == partial_sum(Product::Inner, *a, *b, 4, 18));
    let r = r.sub(b.e13.mul(a.e13p));
    assert(r == partial_sum(Product::Inner, *a, *b, 4, 19));
    let r = r.sub(b.e13pn.mul(a.e13n));
    assert(r == partial_sum(Product::Inner, *a, *b, 4, 20));
    let r = r.sub(b.e1n.mul(a.e1pn));
    assert(r == partial_sum(Product::Inner, *a, *b, 4, 21));
    let r = r.sub(b.e23.mul(a.e23p));
    assert(r == partial_sum(Product::Inner, *a, *b, 4, 22));
    let r = r.sub(b.e23pn.mul(a.e23n));
    assert(r == partial_sum(Product::Inner, *a, *b, 4, 23));
    let r = r.sub(b.e2n.mul(a.e2pn));
    assert(r == partial_sum(Product::Inner, *a, *b, 4, 24));
    let r = r.sub(b.e3n.mul(a.e3pn));
    assert(r == partial_sum(Product::Inner, *a, *b, 4, 25));
    let r = r.add(b.e123.mul(a.e123p));
    assert(r == partial_sum(Product::Inner, *a, *b, 4, 26));
    let r = r.add(b.e123pn.mul(a.e123n));
    assert(r == partial_sum(Product::Inner, *a, *b, 4, 27));
    let r = r.add(b.e12n.mul(a.e12pn));
    assert(r == partial_sum(Product::Inner, *a, *b, 4, 28));
    let r = r.add(b.e13n.mul(a.e13pn));
    assert(r == partial_sum(Product::Inner, *a, *b, 4, 29));
    let r = r.add(b.e23n.mul(a.e23pn));
    assert(r == partial_sum(Product::Inner, *a, *b, 4, 30));
    let r = r.add(b.e123n.mul(a.e123pn));
    assert(r == partial_sum(Product::Inner, *a, *b, 4, 31));
    r
}

/// The coefficient of `en` in the inner product of `a` and `b`.
fn inner_en<T: Field>(a: &R410<T>, b: &R410<T>) -> (r: T)
    ensures
        r == partial_sum(Product::Inner, *a, *b, 5, 31),
{
    let r = b.en.mul(a.s);
    assert(r == partial_sum(Product::Inner, *a, *b, 5, 0));
    let r = r.add(b.e1n.mul(a.e1));
    assert(r == partial_sum(Product::Inner, *a, *b, 5, 1));
    let r = r.add(b.e2n.mul(a.e2));
    assert(r == partial_sum(Product::Inner, *a, *b, 5, 2));
    let r = r.add(b.e3n.mul(a.e3));
    assert(r == partial_sum(Product::Inner, *a, *b, 5, 3));
    let r = r.add(b.epn.mul(a.ep));
    assert(r == partial_sum(Product::Inner, *a, *b, 5, 4));
    let r = r.add(b.s.mul(a.en));
    assert(r == partial_sum(Product::Inner, *a, *b, 5, 5));
    let r = r.sub(b.e12n.mul(a.e12));
    assert(r == partial_sum(Product::Inner, *a, *b, 5, 6));
    let r = r.sub(b.e13n.mul(a.e13));
    assert(r == partial_sum(Product::Inner, *a, *b, 5, 7));
    let r = r.sub(b.e1pn.mul(a.e1p));
    assert(r == partial_sum(Product::Inner, *a, *b, 5, 8));
    let r = r.sub(b.e1.mul(a.e1n));
    assert(r == partial_sum(Product::Inner, *a, *b, 5, 9));
    let r = r.sub(b.e23n.mul(a.e23));
    assert(r == partial_sum(Product::Inner, *a, *b, 5, 10));
    let r = r.sub(b.e2pn.mul(a.e2p));
    assert(r == partial_sum(Product::Inner, *a, *b, 5, 11));
    let r = r.sub(b.e2.mul(a.e2n));
    assert(r == partial_sum(Product::Inner, *a, *b, 5, 12));
    let r = r.sub(b.e3pn.mul(a.e3p));
    assert(r == partial_sum(Product::Inner, *a, *b, 5, 13));
    let r = r.sub(b.e3.mul(a.e3n));
    assert(r == partial_sum(Product::Inner, *a, *b, 5, 14));
    let r = r.sub(b.ep.mul(a.epn));
    assert(r == partial_sum(Product::Inner, *a, *b, 5, 15));
    let r = r.sub(b.e123n.mul(a.e123));
    assert(r == partial_sum(Product::Inner, *a, *b, 5, 16));
    let r = r.sub(b.e12pn.mul(a.e12p));
    assert(r == partial_sum(Product::Inner, *a, *b, 5, 17));
    let r = r.sub(b.e12.mul(a.e12n));
    assert(r == partial_sum(Product::Inner, *a, *b, 5, 18));
    let r = r.sub(b.e13pn.mul(a.e13p));
    assert(r == partial_sum(Product::Inner, *a, *b, 5, 19));
    let r = r.sub(b.e13.mul(a.e13n));
    assert(r == partial_sum(Product::Inner, *a, *b, 5, 20));
    let r = r.sub(b.e1p.mul(a.e1pn));
    assert(r == partial_sum(Product::Inner, *a, *b, 5, 21));
    let r = r.sub(b.e23pn.mul(a.e23p));
    assert(r == partial_sum(Product::Inner, *a, *b, 5, 22));
    let r = r.sub(b.e23.mul(a.e23n));
    assert(r == partial_sum(Product::Inner, *a, *b, 5, 23));
    let r = r.sub(b.e2p.mul(a.e2pn));
    assert(r == partial_sum(Product::Inner, *a, *b, 5, 24));
    let r = r.sub(b.e3p.mul(a.e3pn));
    assert(r == partial_sum(Product::Inner, *a, *b, 5, 25));
    let r = r.add(b.e123pn.mul(a.e123p));
    assert(r == partial_sum(Product::Inner, *a, *b, 5, 26));
    let r = r.add(b.e123.mul(a.e123n));
    assert(r == partial_sum(Product::Inner, *a, *b, 5, 27));
    let r = r.add(b.e12p.mul(a.e12pn));
    assert(r == partial_sum(Product::Inner, *a, *b, 5, 28));
    let r = r.add(b.e13p.mul(a.e13pn));
    assert(r == partial_sum(Product::Inner, *a, *b, 5, 29));
    let r = r.add(b.e23p.mul(a.e23pn));
    assert(r == partial_sum(Product::Inner, *a, *b, 5, 30));
    let r = r.add(b.e123p.mul(a.e123pn));
    assert(r == partial_sum(Product::Inner, *a, *b, 5, 31));
    r
}

/// The coefficient of `e12` in the inner product of `a` and `b`.
fn inner_e12<T: Field>(a: &R410<T>, b: &R410<T>) -> (r: T)
    ensures
        r == partial_sum(Product::Inner, *a, *b, 6, 31),
{
    let r = b.e12.mul(a.s);
    assert(r == partial_sum(Product::Inner, *a, *b, 6, 0));
    assert(r == partial_sum(Product::Inner, *a, *b, 6, 1));
    assert(r == partial_sum(Product::Inner, *a, *b, 6, 2));
    let r = r.add(b.e123.mul(a.e3));
    assert(r == partial_sum(Product::Inner, *a, *b, 6, 3));
    let r = r.add(b.e12p.mul(a.ep));
    assert(r == partial_sum(Product::Inner, *a, *b, 6, 4));
    let r = r.sub(b.e12n.mul(a.en));
    assert(r == partial_sum(Product::Inner, *a, *b, 6, 5));
    let r = r.add(b.s.mul(a.e12));
    assert(r == partial_sum(Product::Inner, *a, *b, 6, 6));
    assert(r == partial_sum(Product::Inner, *a, *b, 6, 7));
    assert(r == partial_sum(Product::Inner, *a, *b, 6, 8));
    assert(r == partial_sum(Product::Inner, *a, *b, 6, 9));
    assert(r == partial_sum(Product::Inner, *a, *b, 6, 10));
    assert(r == partial_sum(Product::Inner, *a, *b, 6, 11));
    assert(r == partial_sum(Product::Inner, *a, *b, 6, 12));
    let r = r.sub(b.e123p.mul(a.e3p));
    assert(r == partial_sum(Product::Inner, *a, *b, 6, 13));
    let r = r.add(b.e123n.mul(a.e3n));
    assert(r == partial_sum(Product::Inner, *a, *b, 6, 14));
    let r = r.add(b.e12pn.mul(a.epn));
    assert(r == partial_sum(Product::Inner, *a, *b, 6, 15));
    let r = r.add(b.e3.mul(a.e123));
    assert(r == partial_sum(Product::Inner, *a, *b, 6, 16));
    let r = r.add(b.ep.mul(a.e12p));
    assert(r == partial_sum(Product::Inner, *a, *b, 6, 17));
    let r = r.sub(b.en.mul(a.e12n));
    assert(r == partial_sum(Product::Inner, *a, *b, 6, 18));
    assert(r == partial_sum(Product::Inner, *a, *b, 6, 19));
    assert(r == partial_sum(Product::Inner, *a, *b, 6, 20));
    assert(r == partial_sum(Product::Inner, *a, *b, 6, 21));
    assert(r == partial_sum(Product::Inner, *a, *b, 6, 22));
    assert(r == partial_sum(Product::Inner, *a, *b, 6, 23));
    assert(r == partial_sum(Product::Inner, *a, *b, 6, 24));
    let r = r.add(b.e123pn.mul(a.e3pn));
    assert(r == partial_sum(Product::Inner, *a, *b, 6, 25));
    let r = r.sub(b.e3p.mul(a.e123p));
    assert(r == partial_sum(Product::Inner, *a, *b, 6, 26));
    let r = r.add(b.e3n.mul(a.e123n));
    assert(r == partial_sum(Product::Inner, *a, *b, 6, 27));
    let r = r.add(b.epn.mul(a.e12pn));
    assert(r == partial_sum(Product::Inner, *a, *b, 6, 28));
    assert(r == partial_sum(Product::Inner, *a, *b, 6, 29));
    assert(r == partial_sum(Product::Inner, *a, *b, 6, 30));
    let r = r.add(b.e3pn.mul(a.e123pn));
    assert(r == partial_sum(Product::Inner, *a, *b, 6, 31));
    r
}

/// The coefficient of `e13` in the inner product of `a` and `b`.
fn inner_e13<T: Field>(a: &R410<T>, b: &R410<T>) -> (r: T)
    ensures
        r == partial_sum(Product::Inner, *a, *b, 7, 31),
{
    let r = b.e13.mul(a.s);
    assert(r == partial_sum(Product::Inner, *a, *b, 7, 0));
    assert(r == partial_sum(Product::Inner, *a, *b, 7, 1));
    let r = r.sub(b.e123.mul(a.e2));
    assert(r == partial_sum(Product::Inner, *a, *b, 7, 2));
    assert(r == partial_sum(Product::Inner, *a, *b, 7, 3));
    let r = r.add(b.e13p.mul(a.ep));
    assert(r == partial_sum(Product::Inner, *a, *b, 7, 4));
    let r = r.sub(b.e13n.mul(a.en));
    assert(r == partial_sum(Product::Inner, *a, *b, 7, 5));
    assert(r == partial_sum(Product::Inner, *a, *b, 7, 6));
    let r = r.add(b.s.mul(a.e13));
    assert(r == partial_sum(Product::Inner, *a, *b, 7, 7));
    assert(r == partial_sum(Product::Inner, *a, *b, 7, 8));
    assert(r == partial_sum(Product::Inner, *a, *b, 7, 9));
    assert(r == partial_sum(Product::Inner, *a, *b, 7, 10));
    let r = r.add(b.e123p.mul(a.e2p));
    assert(r == partial_sum(Product::Inner, *a, *b, 7, 11));
    let r = r.sub(b.e123n.mul(a.e2n));
    assert(r == partial_sum(Product::Inner, *a, *b, 7, 12));
    assert(r == partial_sum(Product::Inner, *a, *b, 7, 13));
    assert(r == partial_sum(Product::Inner, *a, *b, 7, 14));
    let r = r.add(b.e13pn.mul(a.epn));
    assert(r == partial_sum(Product::Inner, *a, *b, 7, 15));
    let r = r.sub(b.e2.mul(a.e123));
    assert(r == partial_sum(Product::Inner, *a, *b, 7, 16));
    assert(r == partial_sum(Product::Inner, *a, *b, 7, 17));
    assert(r == partial_sum(Product::Inner, *a, *b, 7, 18));
    let r = r.add(b.ep.mul(a.e13p));
    assert(r == partial_sum(Product::Inner, *a, *b, 7, 19));
    let r = r.sub(b.en.mul(a.e13n));
    assert(r == partial_sum(Product::Inner, *a, *b, 7, 20));
    assert(r == partial_sum(Product::Inner, *a, *b, 7, 21));
    assert(r == partial_sum(Product::Inner, *a, *b, 7, 22));
    assert(r == partial_sum(Product::Inner, *a, *b, 7, 23));
    let r = r.sub(b.e123pn.mul(a.e2pn));
    assert(r == partial_sum(Product::Inner, *a, *b, 7, 24));
    assert(r == partial_sum(Product::Inner, *a, *b, 7, 25));
    let r = r.add(b.e2p.mul(a.e123p));
    assert(r == partial_sum(Product::Inner, *a, *b, 7, 26));
    let r = r.sub(b.e2n.mul(a.e123n));
    assert(r == partial_sum(Product::Inner, *a, *b, 7, 27));
    assert(r == partial_sum(Product::Inner, *a, *b, 7, 28));
    let r = r.add(b.epn.mul(a.e13pn));
    assert(r == partial_sum(Product::Inner, *a, *b, 7, 29));
    assert(r == partial_sum(Product::Inner, *a, *b, 7, 30));
    let r = r.sub(b.e2pn.mul(a.e123pn));
    assert(r == partial_sum(Product::Inner, *a, *b, 7, 31));
    r
}

/// The coefficient of `e1p` in the inner product of `a` and `b`.
fn inner_e1p<T: Field>(a: &R410<T>, b: &R410<T>) -> (r: T)
    ensures
        r == partial_sum(Product::Inner, *a, *b, 8, 31),
{
    let r = b.e1p.mul(a.s);
    assert(r == partial_sum(Product::Inner, *a, *b, 8, 0));
    assert(r == partial_sum(Product::Inner, *a, *b, 8, 1));
    let r = r.sub(b.e12p.mul(a.e2));
    assert(r == partial_sum(Product::Inner, *a, *b, 8, 2));
    let r = r.sub(b.e13p.mul(a.e3));
    assert(r == partial_sum(Product::Inner, *a, *b, 8, 3));
    assert(r == partial_sum(Product::Inner, *a, *b, 8, 4));
    let r = r.sub(b.e1pn.mul(a.en));
    assert(r == partial_sum(Product::Inner, *a, *b, 8, 5));
    assert(r == partial_sum(Product::Inner, *a, *b, 8, 6));
    assert(r == partial_sum(Product::Inner, *a, *b, 8, 7));
    let r = r.add(b.s.mul(a.e1p));
    assert(r == partial_sum(Product::Inner, *a, *b, 8, 8));
    assert(r == partial_sum(Product::Inner, *a, *b, 8, 9));
    let r = r.sub(b.e123p.mul(a.e23));
    assert(r == partial_sum(Product::Inner, *a, *b, 8, 10));
    assert(r == partial_sum(Product::Inner, *a, *b, 8, 11));
    let r = r.sub(b.e12pn.mul(a.e2n));
    assert(r == partial_sum(Product::Inner, *a, *b, 8, 12));
    assert(r == partial_sum(Product::Inner, *a, *b, 8, 13));
    let r = r.sub(b.e13pn.mul(a.e3n));
    assert(r == partial_sum(Product::Inner, *a, *b, 8, 14));
    assert(r == partial_sum(Product::Inner, *a, *b, 8, 15));
    assert(r == partial_sum(Product::Inner, *a, *b, 8, 16));
    let r = r.sub(b.e2.mul(a.e12p));
    assert(r == partial_sum(Product::Inner, *a, *b, 8, 17));
    assert(r == partial_sum(Product::Inner, *a, *b, 8, 18));
    let r = r.sub(b.e3.mul(a.e13p));
    assert(r == partial_sum(Product::Inner, *a, *b, 8, 19));
    assert(r == partial_sum(Product::Inner, *a, *b, 8, 20));
    let r = r.sub(b.en.mul(a.e1pn));
    assert(r == partial_sum(Product::Inner, *a, *b, 8, 21));
    assert(r == partial_sum(Product::Inner, *a, *b, 8, 22));
    let r = r.add(b.e123pn.mul(a.e23n));
    assert(r == partial_sum(Product::Inner, *a, *b, 8, 23));
    assert(r == partial_sum(Product::Inner, *a, *b, 8, 24));
    assert(r == partial_sum(Product::Inner, *a, *b, 8, 25));
    let r = r.sub(b.e23.mul(a.e123p));
    assert(r == partial_sum(Product::Inner, *a, *b, 8, 26));
    assert(r == partial_sum(Product::Inner, *a, *b, 8, 27));
    let r = r.sub(b.e2n.mul(a.e12pn));
    assert(r == partial_sum(Product::Inner, *a, *b, 8, 28));
    let r = r.sub(b.e3n.mul(a.e13pn));
    assert(r == partial_sum(Product::Inner, *a, *b, 8, 29));
    assert(r == partial_sum(Product::Inner, *a, *b, 8, 30));
    let r = r.add(b.e23n.mul(a.e123pn));
    assert(r == partial_sum(Product::Inner, *a, *b, 8, 31));
    r
}

/// The coefficient of `e1n` in the inner product of `a` and `b`.
fn inner_e1n<T: Field>(a: &R410<T>, b: &R410<T>) -> (r: T)
    ensures
        r == partial_sum(Product::Inner, *a, *b, 9, 31),
{
    let r = b.e1n.mul(a.s);
    assert(r == partial_sum(Product::Inner, *a, *b, 9, 0));
    assert(r == partial_sum(Product::Inner, *a, *b, 9, 1));
    let r = r.sub(b.e12n.mul(a.e2));
    assert(r == partial_sum(Product::Inner, *a, *b, 9, 2));
    let r = r.sub(b.e13n.mul(a.e3));
    assert(r == partial_sum(Product::Inner, *a, *b, 9, 3));
    let r = r.sub(b.e1pn.mul(a.ep));
    assert(r == partial_sum(Product::Inner, *a, *b, 9, 4));
    assert(r == partial_sum(Product::Inner, *a, *b, 9, 5));
    assert(r == partial_sum(Product::Inner, *a, *b, 9, 6));
    assert(r == partial_sum(Product::Inner, *a, *b, 9, 7));
    assert(r == partial_sum(Product::Inner, *a, *b, 9, 8));
    let r = r.add(b.s.mul(a.e1n));
    assert(r == partial_sum(Product::Inner, *a, *b, 9, 9));
    let r = r.sub(b.e123n.mul(a.e23));
    assert(r == partial_sum(Product::Inner, *a, *b, 9, 10));
    let r = r.sub(b.e12pn.mul(a.e2p));
    assert(r == partial_sum(Product::Inner, *a, *b, 9, 11));
    assert(r == partial_sum(Product::Inner, *a, *b, 9, 12));
    let r = r.sub(b.e13pn.mul(a.e3p));
    assert(r == partial_sum(Product::Inner, *a, *b, 9, 13));
    assert(r == partial_sum(Product::Inner, *a, *b, 9, 14));
    assert(r == partial_sum(Product::Inner, *a, *b, 9, 15));
    assert(r == partial_sum(Product::Inner, *a, *b, 9, 16));
    assert(r == partial_sum(Product::Inner, *a, *b, 9, 17));
    let r = r.sub(b.e2.mul(a.e12n));
    assert(r == partial_sum(Product::Inner, *a, *b, 9, 18));
    assert(r == partial_sum(Product::Inner, *a, *b, 9, 19));
    let r = r.sub(b.e3.mul(a.e13n));
    assert(r == partial_sum(Product::Inner, *a, *b, 9, 20));
    let r = r.sub(b.ep.mul(a.e1pn));
    assert(r == partial_sum(Product::Inner, *a, *b, 9, 21));
    let r = r.add(b.e123pn.mul(a.e23p));
    assert(r == partial_sum(Product::Inner, *a, *b, 9, 22));
    assert(r == partial_sum(Product::Inner, *a, *b, 9, 23));
    assert(r == partial_sum(Product::Inner, *a, *b, 9, 24));
    assert(r == partial_sum(Product::Inner, *a, *b, 9, 25));
    assert(r == partial_sum(Product::Inner, *a, *b, 9, 26));
    let r = r.sub(b.e23.mul(a.e123n));
    assert(r == partial_sum(Product::Inner, *a, *b, 9, 27));
    let r = r.sub(b.e2p.mul(a.e12pn));
    assert(r == partial_sum(Product::Inner, *a, *b, 9, 28));
    let r = r.sub(b.e3p.mul(a.e13pn));
    assert(r == partial_sum(Product::Inner, *a, *b, 9, 29));
    assert(r == partial_sum(Product::Inner, *a, *b, 9, 30));
    let r = r.add(b.e23p.mul(a.e123pn));
    assert(r == partial_sum(Product::Inner, *a, *b, 9, 31));
    r
}

/// The coefficient of `e23` in the inner product of `a` and `b`.
fn inner_e23<T: Field>(a: &R410<T>, b: &R410<T>) -> (r: T)
    ensures
        r == partial_sum(Product::Inner, *a, *b, 10, 31),
{
    let r = b.e23.mul(a.s);
    assert(r == partial_sum(Product::Inner, *a, *b, 10, 0));
    let r = r.add(b.e123.mul(a.e1));
    assert(r == partial_sum(Product::Inner, *a, *b, 10, 1));
    assert(r == partial_sum(Product::Inner, *a, *b, 10, 2));
    assert(r == partial_sum(Product::Inner, *a, *b, 10, 3));
    let r = r.add(b.e23p.mul(a.ep));
    assert(r == partial_sum(Product::Inner, *a, *b, 10, 4));
    let r = r.sub(b.e23n.mul(a.en));
    assert(r == partial_sum(Product::Inner, *a, *b, 10, 5));
    assert(r == partial_sum(Product::Inner, *a, *b, 10, 6));
    assert(r == partial_sum(Product::Inner, *a, *b, 10, 7));
    let r = r.sub(b.e123p.mul(a.e1p));
    assert(r == partial_sum(Product::Inner, *a, *b, 10, 8));
    let r = r.add(b.e123n.mul(a.e1n));
    assert(r == partial_sum(Product::Inner, *a, *b, 10, 9));
    let r = r.add(b.s.mul(a.e23));
    assert(r == partial_sum(Product::Inner, *a, *b, 10, 10));
    assert(r == partial_sum(Product::Inner, *a, *b, 10, 11));
    assert(r == partial_sum(Product::Inner, *a, *b, 10, 12));
    assert(r == partial_sum(Product::Inner, *a, *b, 10, 13));
    assert(r == partial_sum(Product::Inner, *a, *b, 10, 14));
    let r = r.add(b.e23pn.mul(a.epn));
    assert(r == partial_sum(Product::Inner, *a, *b, 10, 15));
    let r = r.add(b.e1.mul(a.e123));
    assert(r == partial_sum(Product::Inner, *a, *b, 10, 16));
    assert(r == partial_sum(Product::Inner, *a, *b, 10, 17));
    assert(r == partial_sum(Product::Inner, *a, *b, 10, 18));
    assert(r == partial_sum(Product::Inner, *a, *b, 10, 19));
    assert(r == partial_sum(Product::Inner, *a, *b, 10, 20));
    let r = r.add(b.e123pn.mul(a.e1pn));
    assert(r == partial_sum(Product::Inner, *a, *b, 10, 21));
    let r = r.add(b.ep.mul(a.e23p));
    assert(r == partial_sum(Product::Inner, *a, *b, 10, 22));
    let r = r.sub(b.en.mul(a.e23n));
    assert(r == partial_sum(Product::Inner, *a, *b, 10, 23));
    assert(r == partial_sum(Product::Inner, *a, *b, 10, 24));
    assert(r == partial_sum(Product::Inner, *a, *b, 10, 25));
    let r = r.sub(b.e1p.mul(a.e123p));
    assert(r == partial_sum(Product::Inner, *a, *b, 10, 26));
    let r = r.add(b.e1n.mul(a.e123n));
    assert(r == partial_sum(Product::Inner, *a, *b, 10, 27));
    assert(r == partial_sum(Product::Inner, *a, *b, 10, 28));
    assert(r == partial_sum(Product::Inner, *a, *b, 10, 29));
    let r = r.add(b.epn.mul(a.e23pn));
    assert(r == partial_sum(Product::Inner, *a, *b, 10, 30));
    let r = r.add(b.e1pn.mul(a.e123pn));
    assert(r == partial_sum(Product::Inner, *a, *b, 10, 31));
    r
}

/// The coefficient of `e2p` in the inner product of `a` and `b`.
fn inner_e2p<T: Field>(a: &R410<T>, b: &R410<T>) -> (r: T)
    ensures
        r == partial_sum(Product::Inner, *a, *b, 11, 31),
{
    let r = b.e2p.mul(a.s);
    assert(r == partial_sum(Product::Inner, *a, *b, 11, 0));
    let r = r.add(b.e12p.mul(a.e1));
    assert(r == partial_sum(Product::Inner, *a, *b, 11, 1));
    assert(r == partial_sum(Product::Inner, *a, *b, 11, 2));
    let r = r.sub(b.e23p.mul(a.e3));
    assert(r == partial_sum(Product::Inner, *a, *b, 11, 3));
    assert(r == partial_sum(Product::Inner, *a, *b, 11, 4));
    let r = r.sub(b.e2pn.mul(a.en));
    assert(r == partial_sum(Product::Inner, *a, *b, 11, 5));
    assert(r == partial_sum(Product::Inner, *a, *b, 11, 6));
    let r = r.add(b.e123p.mul(a.e13));
    assert(r == partial_sum(Product::Inner, *a, *b, 11, 7));
    assert(r == partial_sum(Product::Inner, *a, *b, 11, 8));
    let r = r.add(b.e12pn.mul(a.e1n));
    assert(r == partial_sum(Product::Inner, *a, *b, 11, 9));
    assert(r == partial_sum(Product::Inner, *a, *b, 11, 10));
    let r = r.add(b.s.mul(a.e2p));
    assert(r == partial_sum(Product::Inner, *a, *b, 11, 11));
    assert(r == partial_sum(Product::Inner, *a, *b, 11, 12));
    assert(r == partial_sum(Product::Inner, *a, *b, 11, 13));
    let r = r.sub(b.e23pn.mul(a.e3n));
    assert(r == partial_sum(Product::Inner, *a, *b, 11, 14));
    assert(r == partial_sum(Product::Inner, *a, *b, 11, 15));
    assert(r == partial_sum(Product::Inner, *a, *b, 11, 16));
    let r = r.add(b.e1.mul(a.e12p));
    assert(r == partial_sum(Product::Inner, *a, *b, 11, 17));
    assert(r == partial_sum(Product::Inner, *a, *b, 11, 18));
    assert(r == partial_sum(Product::Inner, *a, *b, 11, 19));
    let r = r.sub(b.e123pn.mul(a.e13n));
    assert(r == partial_sum(Product::Inner, *a, *b, 11, 20));
    assert(r == partial_sum(Product::Inner, *a, *b, 11, 21));
    let r = r.sub(b.e3.mul(a.e23p));
    assert(r == partial_sum(Product::Inner, *a, *b, 11, 22));
    assert(r == partial_sum(Product::Inner, *a, *b, 11, 23));
    let r = r.sub(b.en.mul(a.e2pn));
    assert(r == partial_sum(Product::Inner, *a, *b, 11, 24));
    assert(r == partial_sum(Product::Inner, *a, *b, 11, 25));
    let r = r.add(b.e13.mul(a.e123p));
    assert(r == partial_sum(Product::Inner, *a, *b, 11, 26));
    assert(r == partial_sum(Product::Inner, *a, *b, 11, 27));
    let r = r.add(b.e1n.mul(a.e12pn));
    assert(r == partial_sum(Product::Inner, *a, *b, 11, 28));
    assert(r == partial_sum(Product::Inner, *a, *b, 11, 29));
    let r = r.sub(b.e3n.mul(a.e23pn));
    assert(r == partial_sum(Product::Inner, *a, *b, 11, 30));
    let r = r.sub(b.e13n.mul(a.e123pn));
    assert(r == partial_sum(Product::Inner, *a, *b, 11, 31));
    r
}

/// The coefficient of `e2n` in the inner product of `a` and `b`.
fn inner_e2n<T: Field>(a: &R410<T>, b: &R410<T>) -> (r: T)
    ensures
        r == partial_sum(Product::Inner, *a, *b, 12, 31),
{
    let r = b.e2n.mul(a.s);
    assert(r == partial_sum(Product::Inner, *a, *b, 12, 0));
    let r = r.add(b.e12n.mul(a.e1));
    assert(r == partial_sum(Product::Inner, *a, *b, 12, 1));
    assert(r == partial_sum(Product::Inner, *a, *b, 12, 2));
    let r = r.sub(b.e23n.mul(a.e3));
    assert(r == partial_sum(Product::Inner, *a, *b, 12, 3));
    let r = r.sub(b.e2pn.mul(a.ep));
    assert(r == partial_sum(Product::Inner, *a, *b, 12, 4));
    assert(r == partial_sum(Product::Inner, *a, *b, 12, 5));
    assert(r == partial_sum(Product::Inner, *a, *b, 12, 6));
    let r = r.add(b.e123n.mul(a.e13));
    assert(r == partial_sum(Product::Inner, *a, *b, 12, 7));
    let r = r.add(b.e12pn.mul(a.e1p));
    assert(r == partial_sum(Product::Inner, *a, *b, 12, 8));
    assert(r == partial_sum(Product::Inner, *a, *b, 12, 9));
    assert(r == partial_sum(Product::Inner, *a, *b, 12, 10));
    assert(r == partial_sum(Product::Inner, *a, *b, 12, 11));
    let r = r.add(b.s.mul(a.e2n));
    assert(r == partial_sum(Product::Inner, *a, *b, 12, 12));
    let r = r.sub(b.e23pn.mul(a.e3p));
    assert(r == partial_sum(Product::Inner, *a, *b, 12, 13));
    assert(r == partial_sum(Product::Inner, *a, *b, 12, 14));
    assert(r == partial_sum(Product::Inner, *a, *b, 12, 15));
    assert(r == partial_sum(Product::Inner, *a, *b, 12, 16));
    assert(r == partial_sum(Product::Inner, *a, *b, 12, 17));
    let r = r.add(b.e1.mul(a.e12n));
    assert(r == partial_sum(Product::Inner, *a, *b, 12, 18));
    let r = r.sub(b.e123pn.mul(a.e13p));
    assert(r == partial_sum(Product::Inner, *a, *b, 12, 19));
    assert(r == partial_sum(Product::Inner, *a, *b, 12, 20));
    assert(r == partial_sum(Product::Inner, *a, *b, 12, 21));
    assert(r == partial_sum(Product::Inner, *a, *b, 12, 22));
    let r = r.sub(b.e3.mul(a.e23n));
    assert(r == partial_sum(Product::Inner, *a, *b, 12, 23));
    let r = r.sub(b.ep.mul(a.e2pn));
    assert(r == partial_sum(Product::Inner, *a, *b, 12, 24));
    assert(r == partial_sum(Product::Inner, *a, *b, 12, 25));
    assert(r == partial_sum(Product::Inner, *a, *b, 12, 26));
    let r = r.add(b.e13.mul(a.e123n));
    assert(r == partial_sum(Product::Inner, *a, *b, 12, 27));
    let r = r.add(b.e1p.mul(a.e12pn));
    assert(r == partial_sum(Product::Inner, *a, *b, 12, 28));
    assert(r == partial_sum(Product::Inner, *a, *b, 12, 29));
    let r = r.sub(b.e3p.mul(a.e23pn));
    assert(r == partial_sum(Product::Inner, *a, *b, 12, 30));
    let r = r.sub(b.e13p.mul(a.e123pn));
    assert(r == partial_sum(Product::Inner, *a, *b, 12, 31));
    r
}

/// The coefficient of `e3p` in the inner product of `a` and `b`.
fn inner_e3p<T: Field>(a: &R410<T>, b: &R410<T>) -> (r: T)
    ensures
        r == partial_sum(Product::Inner, *a, *b, 13, 31),
{
    let r = b.e3p.mul(a.s);
    assert(r == partial_sum(Product::Inner, *a, *b, 13, 0));
    let r = r.add(b.e13p.mul(a.e1));
    assert(r == partial_sum(Product::Inner, *a, *b, 13, 1));
    let r = r.add(b.e23p.mul(a.e2));
    assert(r == partial_sum(Product::Inner, *a, *b, 13, 2));
    assert(r == partial_sum(Product::Inner, *a, *b, 13, 3));
    assert(r == partial_sum(Product::Inner, *a, *b, 13, 4));
    let r = r.sub(b.e3pn.mul(a.en));
    assert(r == partial_sum(Product::Inner, *a, *b, 13, 5));
    let r = r.sub(b.e123p.mul(a.e12));
    assert(r == partial_sum(Product::Inner, *a, *b, 13, 6));
    assert(r == partial_sum(Product::Inner, *a, *b, 13, 7));
    assert(r == partial_sum(Product::Inner, *a, *b, 13, 8));
    let r = r.add(b.e13pn.mul(a.e1n));
    assert(r == partial_sum(Product::Inner, *a, *b, 13, 9));
    assert(r == partial_sum(Product::Inner, *a, *b, 13, 10));
    assert(r == partial_sum(Product::Inner, *a, *b, 13, 11));
    let r = r.add(b.e23pn.mul(a.e2n));
    assert(r == partial_sum(Product::Inner, *a, *b, 13, 12));
    let r = r.add(b.s.mul(a.e3p));
    assert(r == partial_sum(Product::Inner, *a, *b, 13, 13));
    assert(r == partial_sum(Product::Inner, *a, *b, 13, 14));
    assert(r == partial_sum(Product::Inner, *a, *b, 13, 15));
    assert(r == partial_sum(Product::Inner, *a, *b, 13, 16));
    assert(r == partial_sum(Product::Inner, *a, *b, 13, 17));
    let r = r.add(b.e123pn.mul(a.e12n));
    assert(r == partial_sum(Product::Inner, *a, *b, 13, 18));
    let r = r.add(b.e1.mul(a.e13p));
    assert(r == partial_sum(Product::Inner, *a, *b, 13, 19));
    assert(r == partial_sum(Product::Inner, *a, *b, 13, 20));
    assert(r == partial_sum(Product::Inner, *a, *b, 13, 21));
    let r = r.add(b.e2.mul(a.e23p));
    assert(r == partial_sum(Product::Inner, *a, *b, 13, 22));
    assert(r == partial_sum(Product::Inner, *a, *b, 13, 23));
    assert(r == partial_sum(Product::Inner, *a, *b, 13, 24));
    let r = r.sub(b.en.mul(a.e3pn));
    assert(r == partial_sum(Product::Inner, *a, *b, 13, 25));
    let r = r.sub(b.e12.mul(a.e123p));
    assert(r == partial_sum(Product::Inner, *a, *b, 13, 26));
    assert(r == partial_sum(Product::Inner, *a, *b, 13, 27));
    assert(r == partial_sum(Product::Inner, *a, *b, 13, 28));
    let r = r.add(b.e1n.mul(a.e13pn));
    assert(r == partial_sum(Product::Inner, *a, *b, 13, 29));
    let r = r.add(b.e2n.mul(a.e23pn));
    assert(r == partial_sum(Product::Inner, *a, *b, 13, 30));
    let r = r.add(b.e12n.mul(a.e123pn));
    assert(r == partial_sum(Product::Inner, *a, *b, 13, 31));
    r
}

/// The coefficient of `e3n` in the inner product of `a` and `b`.
fn inner_e3n<T: Field>(a: &R410<T>, b: &R410<T>) -> (r: T)
    ensures
        r == partial_sum(Product::Inner, *a, *b, 14, 31),
{
    let r = b.e3n.mul(a.s);
    assert(r == partial_sum(Product::Inner, *a, *b, 14, 0));
    let r = r.add(b.e13n.mul(a.e1));
    assert(r == partial_sum(Product::Inner, *a, *b, 14, 1));
    let r = r.add(b.e23n.mul(a.e2));
    assert(r == partial_sum(Product::Inner, *a, *b, 14, 2));
    assert(r == partial_sum(Product::Inner, *a, *b, 14, 3));
    let r = r.sub(b.e3pn.mul(a.ep));
    assert(r == partial_sum(Product::Inner, *a, *b, 14, 4));
    assert(r == partial_sum(Product::Inner, *a, *b, 14, 5));
    let r = r.sub(b.e123n.mul(a.e12));
    assert(r == partial_sum(Product::Inner, *a, *b, 14, 6));
    assert(r == partial_sum(Product::Inner, *a, *b, 14, 7));
    let r = r.add(b.e13pn.mul(a.e1p));
    assert(r == partial_sum(Product::Inner, *a, *b, 14, 8));
    assert(r == partial_sum(Product::Inner, *a, *b, 14, 9));
    assert(r == partial_sum(Product::Inner, *a, *b, 14, 10));
    let r = r.add(b.e23pn.mul(a.e2p));
    assert(r == partial_sum(Product::Inner, *a, *b, 14, 11));
    assert(r == partial_sum(Product::Inner, *a, *b, 14, 12));
    assert(r == partial_sum(Product::Inner, *a, *b, 14, 13));
    let r = r.add(b.s.mul(a.e3n));
    assert(r == partial_sum(Product::Inner, *a, *b, 14, 14));
    assert(r == partial_sum(Product::Inner, *a, *b, 14, 15));
    assert(r == partial_sum(Product::Inner, *a, *b, 14, 16));
    let r = r.add(b.e123pn.mul(a.e12p));
    assert(r == partial_sum(Product::Inner, *a, *b, 14, 17));
    assert(r == partial_sum(Product::Inner, *a, *b, 14, 18));
    assert(r == partial_sum(Product::Inner, *a, *b, 14, 19));
    let r = r.add(b.e1.mul(a.e13n));
    assert(r == partial_sum(Product::Inner, *a, *b, 14, 20));
    assert(r == partial_sum(Product::Inner, *a, *b, 14, 21));
    assert(r == partial_sum(Product::Inner, *a, *b, 14, 22));
    let r = r.add(b.e2.mul(a.e23n));
    assert(r == partial_sum(Product::Inner, *a, *b, 14, 23));
    assert(r == partial_sum(Product::Inner, *a, *b, 14, 24));
    let r = r.sub(b.ep.mul(a.e3pn));
    assert(r == partial_sum(Product::Inner, *a, *b, 14, 25));
    assert(r == partial_sum(Product::Inner, *a, *b, 14, 26));
    let r = r.sub(b.e12.mul(a.e123n));
    assert(r == partial_sum(Product::Inner, *a, *b, 14, 27));
    assert(r == partial_sum(Product::Inner, *a, *b, 14, 28));
    let r = r.add(b.e1p.mul(a.e13pn));
    assert(r == partial_sum(Product::Inner, *a, *b, 14, 29));
    let r = r.add(b.e2p.mul(a.e23pn));
    assert(r == partial_sum(Product::Inner, *a, *b, 14, 30));
    let r = r.add(b.e12p.mul(a.e123pn));
    assert(r == partial_sum(Product::Inner, *a, *b, 14, 31));
    r
}

/// The coefficient of `epn` in the inner product of `a` and `b`.
fn inner_epn<T: Field>(a: &R410<T>, b: &R410<T>) -> (r: T)
    ensures
        r == partial_sum(Product::Inner, *a, *b, 15, 31),
{
    let r = b.epn.mul(a.s);
    assert(r == partial_sum(Product::Inner, *a, *b, 15, 0));
    let r = r.add(b.e1pn.mul(a.e1));
    assert(r == partial_sum(Product::Inner, *a, *b, 15, 1));
    let r = r.add(b.e2pn.mul(a.e2));
    assert(r == partial_sum(Product::Inner, *a, *b, 15, 2));
    let r = r.add(b.e3pn.mul(a.e3));
    assert(r == partial_sum(Product::Inner, *a, *b, 15, 3));
    assert(r == partial_sum(Product::Inner, *a, *b, 15, 4));
    assert(r == partial_sum(Product::Inner, *a, *b, 15, 5));
    let r = r.sub(b.e12pn.mul(a.e12));
    assert(r == partial_sum(Product::Inner, *a, *b, 15, 6));
    let r = r.sub(b.e13pn.mul(a.e13));
    assert(r == partial_sum(Product::Inner, *a, *b, 15, 7));
    assert(r == partial_sum(Product::Inner, *a, *b, 15, 8));
    assert(r == partial_sum(Product::Inner, *a, *b, 15, 9));
    let r = r.sub(b.e23pn.mul(a.e23));
    assert(r == partial_sum(Product::Inner, *a, *b, 15, 10));
    assert(r == partial_sum(Product::Inner, *a, *b, 15, 11));
    assert(r == partial_sum(Product::Inner, *a, *b, 15, 12));
    assert(r == partial_sum(Product::Inner, *a, *b, 15, 13));
    assert(r == partial_sum(Product::Inner, *a, *b, 15, 14));
    let r = r.add(b.s.mul(a.epn));
    assert(r == partial_sum(Product::Inner, *a, *b, 15, 15));
    let r = r.sub(b.e123pn.mul(a.e123));
    assert(r == partial_sum(Product::Inner, *a, *b, 15, 16));
    assert(r == partial_sum(Product::Inner, *a, *b, 15, 17));
    assert(r == partial_sum(Product::Inner, *a, *b, 15, 18));
    assert(r == partial_sum(Product::Inner, *a, *b, 15, 19));
    assert(r == partial_sum(Product::Inner, *a, *b, 15, 20));
    let r = r.add(b.e1.mul(a.e1pn));
    assert(r == partial_sum(Product::Inner, *a, *b, 15, 21));
    assert(r == partial_sum(Product::Inner, *a, *b, 15, 22));
    assert(r == partial_sum(Product::Inner, *a, *b, 15, 23));
    let r = r.add(b.e2.mul(a.e2pn));
    assert(r == partial_sum(Product::Inner, *a, *b, 15, 24));
    let r = r.add(b.e3.mul(a.e3pn));
    assert(r == partial_sum(Product::Inner, *a, *b, 15, 25));
    assert(r == partial_sum(Product::Inner, *a, *b, 15, 26));
    assert(r == partial_sum(Product::Inner, *a, *b, 15, 27));
    let r = r.sub(b.e12.mul(a.e12pn));
    assert(r == partial_sum(Product::Inner, *a, *b, 15, 28));
    let r = r.sub(b.e13.mul(a.e13pn));
    assert(r == partial_sum(Product::Inner, *a, *b, 15, 29));
    let r = r.sub(b.e23.mul(a.e23pn));
    assert(r == partial_sum(Product::Inner, *a, *b, 15, 30));
    let r = r.sub(b.e123.mul(a.e123pn));
    assert(r == partial_sum(Product::Inner, *a, *b, 15, 31));
    r
}

/// The coefficient of `e123` in the inner product of `a` and `b`.
fn inner_e123<T: Field>(a: &R410<T>, b: &R410<T>) -> (r: T)
    ensures
        r == partial_sum(Product::Inner, *a, *b, 16, 31),
{
    let r = b.e123.mul(a.s);
    assert(r == partial_sum(Product::Inner, *a, *b, 16, 0));
    assert(r == partial_sum(Product::Inner, *a, *b, 16, 1));
    assert(r == partial_sum(Product::Inner, *a, *b, 16, 2));
    assert(r == partial_sum(Product::Inner, *a, *b, 16, 3));
    let r = r.sub(b.e123p.mul(a.ep));
    assert(r == partial_sum(Product::Inner, *a, *b, 16, 4));
    let r = r.add(b.e123n.mul(a.en));
    assert(r == partial_sum(Product::Inner, *a, *b, 16, 5));
    assert(r == partial_sum(Product::Inner, *a, *b, 16, 6));
    assert(r == partial_sum(Product::Inner, *a, *b, 16, 7));
    assert(r == partial_sum(Product::Inner, *a, *b, 16, 8));
    assert(r == partial_sum(Product::Inner, *a, *b, 16, 9));
    assert(r == partial_sum(Product::Inner, *a, *b, 16, 10));
    assert(r == partial_sum(Product::Inner, *a, *b, 16, 11));
    assert(r == partial_sum(Product::Inner, *a, *b, 16, 12));
    assert(r == partial_sum(Product::Inner, *a, *b, 16, 13));
    assert(r == partial_sum(Product::Inner, *a, *b, 16, 14));
    let r = r.add(b.e123pn.mul(a.epn));
    assert(r == partial_sum(Product::Inner, *a, *b, 16, 15));
    let r = r.add(b.s.mul(a.e123));
    assert(r == partial_sum(Product::Inner, *a, *b, 16, 16));
    assert(r == partial_sum(Product::Inner, *a, *b, 16, 17));
    assert(r == partial_sum(Product::Inner, *a, *b, 16, 18));
    assert(r == partial_sum(Product::Inner, *a, *b, 16, 19));
    assert(r == partial_sum(Product::Inner, *a, *b, 16, 20));
    assert(r == partial_sum(Product::Inner, *a, *b, 16, 21));
    assert(r == partial_sum(Product::Inner, *a, *b, 16, 22));
    assert(r == partial_sum(Product::Inner, *a, *b, 16, 23));
    assert(r == partial_sum(Product::Inner, *a, *b, 16, 24));
    assert(r == partial_sum(Product::Inner, *a, *b, 16, 25));
    let r = r.add(b.ep.mul(a.e123p));
    assert(r == partial_sum(Product::Inner, *a, *b, 16, 26));
    let r = r.sub(b.en.mul(a.e123n));
    assert(r == partial_sum(Product::Inner, *a, *b, 16, 27));
    assert(r == partial_sum(Product::Inner, *a, *b, 16, 28));
    assert(r == partial_sum(Product::Inner, *a, *b, 16, 29));
    assert(r == partial_sum(Product::Inner, *a, *b, 16, 30));
    let r = r.add(b.epn.mul(a.e123pn));
    assert(r == partial_sum(Product::Inner, *a, *b, 16, 31));
    r
}

/// The coefficient of `e12p` in the inner product of `a` and `b`.
fn inner_e12p<T: Field>(a: &R410<T>, b: &R410<T>) -> (r: T)
    ensures
        r == partial_sum(Product::Inner, *a, *b, 17, 31),
{
    let r = b.e12p.mul(a.s);
    assert(r == partial_sum(Product::Inner, *a, *b, 17, 0));
    assert(r == partial_sum(Product::Inner, *a, *b, 17, 1));
    assert(r == partial_sum(Product::Inner, *a, *b, 17, 2));
    let r = r.add(b.e123p.mul(a.e3));
    assert(r == partial_sum(Product::Inner, *a, *b, 17, 3));
    assert(r == partial_sum(Product::Inner, *a, *b, 17, 4));
    let r = r.add(b.e12pn.mul(a.en));
    assert(r == partial_sum(Product::Inner, *a, *b, 17, 5));
    assert(r == partial_sum(Product::Inner, *a, *b, 17, 6));
    assert(r == partial_sum(Product::Inner, *a, *b, 17, 7));
    assert(r == partial_sum(Product::Inner, *a, *b, 17, 8));
    assert(r == partial_sum(Product::Inner, *a, *b, 17, 9));
    assert(r == partial_sum(Product::Inner, *a, *b, 17, 10));
    assert(r == partial_sum(Product::Inner, *a, *b, 17, 11));
    assert(r == partial_sum(Product::Inner, *a, *b, 17, 12));
    assert(r == partial_sum(Product::Inner, *a, *b, 17, 13));
    let r = r.sub(b.e123pn.mul(a.e3n));
    assert(r == partial_sum(Product::Inner, *a, *b, 17, 14));
    assert(r == partial_sum(Product::Inner, *a, *b, 17, 15));
    assert(r == partial_sum(Product::Inner, *a, *b, 17, 16));
    let r = r.add(b.s.mul(a.e12p));
    assert(r == partial_sum(Product::Inner, *a, *b, 17, 17));
    assert(r == partial_sum(Product::Inner, *a, *b, 17, 18));
    assert(r == partial_sum(Product::Inner, *a, *b, 17, 19));
    assert(r == partial_sum(Product::Inner, *a, *b, 17, 20));
    assert(r == partial_sum(Product::Inner, *a, *b, 17, 21));
    assert(r == partial_sum(Product::Inner, *a, *b, 17, 22));
    assert(r == partial_sum(Product::Inner, *a, *b, 17, 23));
    assert(r == partial_sum(Product::Inner, *a, *b, 17, 24));
    assert(r == partial_sum(Product::Inner, *a, *b, 17, 25));
    let r = r.sub(b.e3.mul(a.e123p));
    assert(r == partial_sum(Product::Inner, *a, *b, 17, 26));
    assert(r == partial_sum(Product::Inner, *a, *b, 17, 27));
    let r = r.sub(b.en.mul(a.e12pn));
    assert(r == partial_sum(Product::Inner, *a, *b, 17, 28));
    assert(r == partial_sum(Product::Inner, *a, *b, 17, 29));
    assert(r == partial_sum(Product::Inner, *a, *b, 17, 30));
    let r = r.sub(b.e3n.mul(a.e123pn));
    assert(r == partial_sum(Product::Inner, *a, *b, 17, 31));
    r
}

/// The coefficient of `e12n` in the inner product of `a` and `b`.
fn inner_e12n<T: Field>(a: &R410<T>, b: &R410<T>) -> (r: T)
    ensures
        r == partial_sum(Product::Inner, *a, *b, 18, 31),
{
    let r = b.e12n.mul(a.s);
    assert(r == partial_sum(Product::Inner, *a, *b, 18, 0));
    assert(r == partial_sum(Product::Inner, *a, *b, 18, 1));
    assert(r == partial_sum(Product::Inner, *a, *b, 18, 2));
    let r = r.add(b.e123n.mul(a.e3));
    assert(r == partial_sum(Product::Inner, *a, *b, 18, 3));
    let r = r.add(b.e12pn.mul(a.ep));
    assert(r == partial_sum(Product::Inner, *a, *b, 18, 4));
    assert(r == partial_sum(Product::Inner, *a, *b, 18, 5));
    assert(r == partial_sum(Product::Inner, *a, *b, 18, 6));
    assert(r == partial_sum(Product::Inner, *a, *b, 18, 7));
    assert(r == partial_sum(Product::Inner, *a, *b, 18, 8));
    assert(r == partial_sum(Product::Inner, *a, *b, 18, 9));
    assert(r == partial_sum(Product::Inner, *a, *b, 18, 10));
    assert(r == partial_sum(Product::Inner, *a, *b, 18, 11));
    assert(r == partial_sum(Product::Inner, *a, *b, 18, 12));
    let r = r.sub(b.e123pn.mul(a.e3p));
    assert(r == partial_sum(Product::Inner, *a, *b, 18, 13));
    assert(r == partial_sum(Product::Inner, *a, *b, 18, 14));
    assert(r == partial_sum(Product::Inner, *a, *b, 18, 15));
    assert(r == partial_sum(Product::Inner, *a, *b, 18, 16));
    assert(r == partial_sum(Product::Inner, *a, *b, 18, 17));
    let r = r.add(b.s.mul(a.e12n));
    assert(r == partial_sum(Product::Inner, *a, *b, 18, 18));
    assert(r == partial_sum(Product::Inner, *a, *b, 18, 19));
    assert(r == partial_sum(Product::Inner, *a, *b, 18, 20));
    assert(r == partial_sum(Product::Inner, *a, *b, 18, 21));
    assert(r == partial_sum(Product::Inner, *a, *b, 18, 22));
    assert(r == partial_sum(Product::Inner, *a, *b, 18, 23));
    assert(r == partial_sum(Product::Inner, *a, *b, 18, 24));
    assert(r == partial_sum(Product::Inner, *a, *b, 18, 25));
    assert(r == partial_sum(Product::Inner, *a, *b, 18, 26));
    let r = r.sub(b.e3.mul(a.e123n));
    assert(r == partial_sum(Product::Inner, *a, *b, 18, 27));
    let r = r.sub(b.ep.mul(a.e12pn));
    assert(r == partial_sum(Product::Inner, *a, *b, 18, 28));
    assert(r == partial_sum(Product::Inner, *a, *b, 18, 29));
    assert(r == partial_sum(Product::Inner, *a, *b, 18, 30));
    let r = r.sub(b.e3p.mul(a.e123pn));
    assert(r == partial_sum(Product::Inner, *a, *b, 18, 31));
    r
}

/// The coefficient of `e13p` in the inner product of `a` and `b`.
fn inner_e13p<T: Field>(a: &R410<T>, b: &R410<T>) -> (r: T)
    ensures
        r == partial_sum(Product::Inner, *a, *b, 19, 31),
{
    let r = b.e13p.mul(a.s);
    assert(r == partial_sum(Product::Inner, *a, *b, 19, 0));
    assert(r == partial_sum(Product::Inner, *a, *b, 19, 1));
    let r = r.sub(b.e123p.mul(a.e2));
    assert(r == partial_sum(Product::Inner, *a, *b, 19, 2));
    assert(r == partial_sum(Product::Inner, *a, *b, 19, 3));
    assert(r == partial_sum(Product::Inner, *a, *b, 19, 4));
    let r = r.add(b.e13pn.mul(a.en));
    assert(r == partial_sum(Product::Inner, *a, *b, 19, 5));
    assert(r == partial_sum(Product::Inner, *a, *b, 19, 6));
    assert(r == partial_sum(Product::Inner, *a, *b, 19, 7));
    assert(r == partial_sum(Product::Inner, *a, *b, 19, 8));
    assert(r == partial_sum(Product::Inner, *a, *b, 19, 9));
    assert(r == partial_sum(Product::Inner, *a, *b, 19, 10));
    assert(r == partial_sum(Product::Inner, *a, *b, 19, 11));
    let r = r.add(b.e123pn.mul(a.e2n));
    assert(r == partial_sum(Product::Inner, *a, *b, 19, 12));
    assert(r == partial_sum(Product::Inner, *a, *b, 19, 13));
    assert(r == partial_sum(Product::Inner, *a, *b, 19, 14));
    assert(r == partial_sum(Product::Inner, *a, *b, 19, 15));
    assert(r == partial_sum(Product::Inner, *a, *b, 19, 16));
    assert(r == partial_sum(Product::Inner, *a, *b, 19, 17));
    assert(r == partial_sum(Product::Inner, *a, *b, 19, 18));
    let r = r.add(b.s.mul(a.e13p));
    assert(r == partial_sum(Product::Inner, *a, *b, 19, 19));
    assert(r == partial_sum(Product::Inner, *a, *b, 19, 20));
    assert(r == partial_sum(Product::Inner, *a, *b, 19, 21));
    assert(r == partial_sum(Product::Inner, *a, *b, 19, 22));
    assert(r == partial_sum(Product::Inner, *a, *b, 19, 23));
    assert(r == partial_sum(Product::Inner, *a, *b, 19, 24));
    assert(r == partial_sum(Product::Inner, *a, *b, 19, 25));
    let r = r.add(b.e2.mul(a.e123p));
    assert(r == partial_sum(Product::Inner, *a, *b, 19, 26));
    assert(r == partial_sum(Product::Inner, *a, *b, 19, 27));
    assert(r == partial_sum(Product::Inner, *a, *b, 19, 28));
    let r = r.sub(b.en.mul(a.e13pn));
    assert(r == partial_sum(Product::Inner, *a, *b, 19, 29));
    assert(r == partial_sum(Product::Inner, *a, *b, 19, 30));
    let r = r.add(b.e2n.mul(a.e123pn));
    assert(r == partial_sum(Product::Inner, *a, *b, 19, 31));
    r
}

/// The coefficient of `e13n` in the inner product of `a` and `b`.
fn inner_e13n<T: Field>(a: &R410<T>, b: &R410<T>) -> (r: T)
    ensures
        r == partial_sum(Product::Inner, *a, *b, 20, 31),
{
    let r = b.e13n.mul(a.s);
    assert(r == partial_sum(Product::Inner, *a, *b, 20, 0));
    assert(r == partial_sum(Product::Inner, *a, *b, 20, 1));
    let r = r.sub(b.e123n.mul(a.e2));
    assert(r == partial_sum(Product::Inner, *a, *b, 20, 2));
    assert(r == partial_sum(Product::Inner, *a, *b, 20, 3));
    let r = r.add(b.e13pn.mul(a.ep));
    assert(r == partial_sum(Product::Inner, *a, *b, 20, 4));
    assert(r == partial_sum(Product::Inner, *a, *b, 20, 5));
    assert(r == partial_sum(Product::Inner, *a, *b, 20, 6));
    assert(r == partial_sum(Product::Inner, *a, *b, 20, 7));
    assert(r == partial_sum(Product::Inner, *a, *b, 20, 8));
    assert(r == partial_sum(Product::Inner, *a, *b, 20, 9));
    assert(r == partial_sum(Product::Inner, *a, *b, 20, 10));
    let r = r.add(b.e123pn.mul(a.e2p));
    assert(r == partial_sum(Product::Inner, *a, *b, 20, 11));
    assert(r == partial_sum(Product::Inner, *a, *b, 20, 12));
    assert(r == partial_sum(Product::Inner, *a, *b, 20, 13));
    assert(r == partial_sum(Product::Inner, *a, *b, 20, 14));
    assert(r == partial_sum(Product::Inner, *a, *b, 20, 15));
    assert(r == partial_sum(Product::Inner, *a, *b, 20, 16));
    assert(r == partial_sum(Product::Inner, *a, *b, 20, 17));
    assert(r == partial_sum(Product::Inner, *a, *b, 20, 18));
    assert(r == partial_sum(Product::Inner, *a, *b, 20, 19));
    let r = r.add(b.s.mul(a.e13n));
    assert(r == partial_sum(Product::Inner, *a, *b, 20, 20));
    assert(r == partial_sum(Product::Inner, *a, *b, 20, 21));
    assert(r == partial_sum(Product::Inner, *a, *b, 20, 22));
    assert(r == partial_sum(Product::Inner, *a, *b, 20, 23));
    assert(r == partial_sum(Product::Inner, *a, *b, 20, 24));
    assert(r == partial_sum(Product::Inner, *a, *b, 20, 25));
    assert(r == partial_sum(Product::Inner, *a, *b, 20, 26));
    let r = r.add(b.e2.mul(a.e123n));
    assert(r == partial_sum(Product::Inner, *a, *b, 20, 27));
    assert(r == partial_sum(Product::Inner, *a, *b, 20, 28));
    let r = r.sub(b.ep.mul(a.e13pn));
    assert(r == partial_sum(Product::Inner, *a, *b, 20, 29));
    assert(r == partial_sum(Product::Inner, *a, *b, 20, 30));
    let r = r.add(b.e2p.mul(a.e123pn));
    assert(r == partial_sum(Product::Inner, *a, *b, 20, 31));
    r
}

/// The coefficient of `e1pn` in the inner product of `a` and `b`.
fn inner_e1pn<T: Field>(a: &R410<T>, b: &R410<T>) -> (r: T)
    ensures
        r == partial_sum(Product::Inner, *a, *b, 21, 31),
{
    let r = b.e1pn.mul(a.s);
    assert(r == partial_sum(Product::Inner, *a, *b, 21, 0));
    assert(r == partial_sum(Product::Inner, *a, *b, 21, 1));
    let r = r.sub(b.e12pn.mul(a.e2));
    assert(r == partial_sum(Product::Inner, *a, *b, 21, 2));
    let r = r.sub(b.e13pn.mul(a.e3));
    assert(r == partial_sum(Product::Inner, *a, *b, 21, 3));
    assert(r == partial_sum(Product::Inner, *a, *b, 21, 4));
    assert(r == partial_sum(Product::Inner, *a, *b, 21, 5));
    assert(r == partial_sum(Product::Inner, *a, *b, 21, 6));
    assert(r == partial_sum(Product::Inner, *a, *b, 21, 7));
    assert(r == partial_sum(Product::Inner, *a, *b, 21, 8));
    assert(r == partial_sum(Product::Inner, *a, *b, 21, 9));
    let r = r.sub(b.e123pn.mul(a.e23));
    assert(r == partial_sum(Product::Inner, *a, *b, 21, 10));
    assert(r == partial_sum(Product::Inner, *a, *b, 21, 11));
    assert(r == partial_sum(Product::Inner, *a, *b, 21, 12));
    assert(r == partial_sum(Product::Inner, *a, *b, 21, 13));
    assert(r == partial_sum(Product::Inner, *a, *b, 21, 14));
    assert(r == partial_sum(Product::Inner, *a, *b, 21, 15));
    assert(r == partial_sum(Product::Inner, *a, *b, 21, 16));
    assert(r == partial_sum(Product::Inner, *a, *b, 21, 17));
    assert(r == partial_sum(Product::Inner, *a, *b, 21, 18));
    assert(r == partial_sum(Product::Inner, *a, *b, 21, 19));
    assert(r == partial_sum(Product::Inner, *a, *b, 21, 20));
    let r = r.add(b.s.mul(a.e1pn));
    assert(r == partial_sum(Product::Inner, *a, *b, 21, 21));
    assert(r == partial_sum(Product::Inner, *a, *b, 21, 22));
    assert(r == partial_sum(Product::Inner, *a, *b, 21, 23));
    assert(r == partial_sum(Product::Inner, *a, *b, 21, 24));
    assert(r == partial_sum(Product::Inner, *a, *b, 21, 25));
    assert(r == partial_sum(Product::Inner, *a, *b, 21, 26));
    assert(r == partial_sum(Product::Inner, *a, *b, 21, 27));
    let r = r.add(b.e2.mul(a.e12pn));
    assert(r == partial_sum(Product::Inner, *a, *b, 21, 28));
    let r = r.add(b.e3.mul(a.e13pn));
    assert(r == partial_sum(Product::Inner, *a, *b, 21, 29));
    assert(r == partial_sum(Product::Inner, *a, *b, 21, 30));
    let r = r.sub(b.e23.mul(a.e123pn));
    assert(r == partial_sum(Product::Inner, *a, *b, 21, 31));
    r
}

/// The coefficient of `e23p` in the inner product of `a` and `b`.
fn inner_e23p<T: Field>(a: &R410<T>, b: &R410<T>) -> (r: T)
    ensures
        r == partial_sum(Product::Inner, *a, *b, 22, 31),
{
    let r = b.e23p.mul(a.s);
    assert(r == partial_sum(Product::Inner, *a, *b, 22, 0));
    let r = r.add(b.e123p.mul(a.e1));
    assert(r == partial_sum(Product::Inner, *a, *b, 22, 1));
    assert(r == partial_sum(Product::Inner, *a, *b, 22, 2));
    assert(r == partial_sum(Product::Inner, *a, *b, 22, 3));
    assert(r == partial_sum(Product::Inner, *a, *b, 22, 4));
    let r = r.add(b.e23pn.mul(a.en));
    assert(r == partial_sum(Product::Inner, *a, *b, 22, 5));
    assert(r == partial_sum(Product::Inner, *a, *b, 22, 6));
    assert(r == partial_sum(Product::Inner, *a, *b, 22, 7));
    assert(r == partial_sum(Product::Inner, *a, *b, 22, 8));
    let r = r.sub(b.e123pn.mul(a.e1n));
    assert(r == partial_sum(Product::Inner, *a, *b, 22, 9));
    assert(r == partial_sum(Product::Inner, *a, *b, 22, 10));
    assert(r == partial_sum(Product::Inner, *a, *b, 22, 11));
    assert(r == partial_sum(Product::Inner, *a, *b, 22, 12));
    assert(r == partial_sum(Product::Inner, *a, *b, 22, 13));
    assert(r == partial_sum(Product::Inner, *a, *b, 22, 14));
    assert(r == partial_sum(Product::Inner, *a, *b, 22, 15));
    assert(r == partial_sum(Product::Inner, *a, *b, 22, 16));
    assert(r == partial_sum(Product::Inner, *a, *b, 22, 17));
    assert(r == partial_sum(Product::Inner, *a, *b, 22, 18));
    assert(r == partial_sum(Product::Inner, *a, *b, 22, 19));
    assert(r == partial_sum(Product::Inner, *a, *b, 22, 20));
    assert(r == partial_sum(Product::Inner, *a, *b, 22, 21));
    let r = r.add(b.s.mul(a.e23p));
    assert(r == partial_sum(Product::Inner, *a, *b, 22, 22));
    assert(r == partial_sum(Product::Inner, *a, *b, 22, 23));
    assert(r == partial_sum(Product::Inner, *a, *b, 22, 24));
    assert(r == partial_sum(Product::Inner, *a, *b, 22, 25));
    let r = r.sub(b.e1.mul(a.e123p));
    assert(r == partial_sum(Product::Inner, *a, *b, 22, 26));
    assert(r == partial_sum(Product::Inner, *a, *b, 22, 27));
    assert(r == partial_sum(Product::Inner, *a, *b, 22, 28));
    assert(r == partial_sum(Product::Inner, *a, *b, 22, 29));
    let r = r.sub(b.en.mul(a.e23pn));
    assert(r == partial_sum(Product::Inner, *a, *b, 22, 30));
    let r = r.sub(b.e1n.mul(a.e123pn));
    assert(r == partial_sum(Product::Inner, *a, *b, 22, 31));
    r
}

/// The coefficient of `e23n` in the inner product of `a` and `b`.
fn inner_e23n<T: Field>(a: &R410<T>, b: &R410<T>) -> (r: T)
    ensures
        r == partial_sum(Product::Inner, *a, *b, 23, 31),
{
    let r = b.e23n.mul(a.s);
    assert(r == partial_sum(Product::Inner, *a, *b, 23, 0));
    let r = r.add(b.e123n.mul(a.e1));
    assert(r == partial_sum(Product::Inner, *a, *b, 23, 1));
    assert(r == partial_sum(Product::Inner, *a, *b, 23, 2));
    assert(r == partial_sum(Product::Inner, *a, *b, 23, 3));
    let r = r.add(b.e23pn.mul(a.ep));
    assert(r == partial_sum(Product::Inner, *a, *b, 23, 4));
    assert(r == partial_sum(Product::Inner, *a, *b, 23, 5));
    assert(r == partial_sum(Product::Inner, *a, *b, 23, 6));
    assert(r == partial_sum(Product::Inner, *a, *b, 23, 7));
    let r = r.sub(b.e123pn.mul(a.e1p));
    assert(r == partial_sum(Product::Inner, *a, *b, 23, 8));
    assert(r == partial_sum(Product::Inner, *a, *b, 23, 9));
    assert(r == partial_sum(Product::Inner, *a, *b, 23, 10));
    assert(r == partial_sum(Product::Inner, *a, *b, 23, 11));
    assert(r == partial_sum(Product::Inner, *a, *b, 23, 12));
    assert(r == partial_sum(Product::Inner, *a, *b, 23, 13));
    assert(r == partial_sum(Product::Inner, *a, *b, 23, 14));
    assert(r == partial_sum(Product::Inner, *a, *b, 23, 15));
    assert(r == partial_sum(Product::Inner, *a, *b, 23, 16));
    assert(r == partial_sum(Product::Inner, *a, *b, 23, 17));
    assert(r == partial_sum(Product::Inner, *a, *b, 23, 18));
    assert(r == partial_sum(Product::Inner, *a, *b, 23, 19));
    assert(r == partial_sum(Product::Inner, *a, *b, 23, 20));
    assert(r == partial_sum(Product::Inner, *a, *b, 23, 21));
    assert(r == partial_sum(Product::Inner, *a, *b, 23, 22));
    let r = r.add(b.s.mul(a.e23n));
    assert(r == partial_sum(Product::Inner, *a, *b, 23, 23));
    assert(r == partial_sum(Product::Inner, *a, *b, 23, 24));
    assert(r == partial_sum(Product::Inner, *a, *b, 23, 25));
    assert(r == partial_sum(Product::Inner, *a, *b, 23, 26));
    let r = r.sub(b.e1.mul(a.e123n));
    assert(r == partial_sum(Product::Inner, *a, *b, 23, 27));
    assert(r == partial_sum(Product::Inner, *a, *b, 23, 28));
    assert(r == partial_sum(Product::Inner, *a, *b, 23, 29));
    let r = r.sub(b.ep.mul(a.e23pn));
    assert(r == partial_sum(Product::Inner, *a, *b, 23, 30));
    let r = r.sub(b.e1p.mul(a.e123pn));
    assert(r == partial_sum(Product::Inner, *a, *b, 23, 31));
    r
}

/// The coefficient of `e2pn` in the inner product of `a` and `b`.
fn inner_e2pn<T: Field>(a: &R410<T>, b: &R410<T>) -> (r: T)
    ensures
        r == partial_sum(Product::Inner, *a, *b, 24, 31),
{
    let r = b.e2pn.mul(a.s);
    assert(r == partial_sum(Product::Inner, *a, *b, 24, 0));
    let r = r.add(b.e12pn.mul(a.e1));
    assert(r == partial_sum(Product::Inner, *a, *b, 24, 1));
    assert(r == partial_sum(Product::Inner, *a, *b, 24, 2));
    let r = r.sub(b.e23pn.mul(a.e3));
    assert(r == partial_sum(Product::Inner, *a, *b, 24, 3));
    assert(r == partial_sum(Product::Inner, *a, *b, 24, 4));
    assert(r == partial_sum(Product::Inner, *a, *b, 24, 5));
    assert(r == partial_sum(Product::Inner, *a, *b, 24, 6));
    let r = r.add(b.e123pn.mul(a.e13));
    assert(r == partial_sum(Product::Inner, *a, *b, 24, 7));
    assert(r == partial_sum(Product::Inner, *a, *b, 24, 8));
    assert(r == partial_sum(Product::Inner, *a, *b, 24, 9));
    assert(r == partial_sum(Product::Inner, *a, *b, 24, 10));
    assert(r == partial_sum(Product::Inner, *a, *b, 24, 11));
    assert(r == partial_sum(Product::Inner, *a, *b, 24, 12));
    assert(r == partial_sum(Product::Inner, *a, *b, 24, 13));
    assert(r == partial_sum(Product::Inner, *a, *b, 24, 14));
    assert(r == partial_sum(Product::Inner, *a, *b, 24, 15));
    assert(r == partial_sum(Product::Inner, *a, *b, 24, 16));
    assert(r == partial_sum(Product::Inner, *a, *b, 24, 17));
    assert(r == partial_sum(Product::Inner, *a, *b, 24, 18));
    assert(r == partial_sum(Product::Inner, *a, *b, 24, 19));
    assert(r == partial_sum(Product::Inner, *a, *b, 24, 20));
    assert(r == partial_sum(Product::Inner, *a, *b, 24, 21));
    assert(r == partial_sum(Product::Inner, *a, *b, 24, 22));
    assert(r == partial_sum(Product::Inner, *a, *b, 24, 23));
    let r = r.add(b.s.mul(a.e2pn));
    assert(r == partial_sum(Product::Inner, *a, *b, 24, 24));
    assert(r == partial_sum(Product::Inner, *a, *b, 24, 25));
    assert(r == partial_sum(Product::Inner, *a, *b, 24, 26));
    assert(r == partial_sum(Product::Inner, *a, *b, 24, 27));
    let r = r.sub(b.e1.mul(a.e12pn));
    assert(r == partial_sum(Product::Inner, *a, *b, 24, 28));
    assert(r == partial_sum(Product::Inner, *a, *b, 24, 29));
    let r = r.add(b.e3.mul(a.e23pn));
    assert(r == partial_sum(Product::Inner, *a, *b, 24, 30));
    let r = r.add(b.e13.mul(a.e123pn));
    assert(r == partial_sum(Product::Inner, *a, *b, 24, 31));
    r
}

/// The coefficient of `e3pn` in the inner product of `a` and `b`.
fn inner_e3pn<T: Field>(a: &R410<T>, b: &R410<T>) -> (r: T)
    ensures
        r == partial_sum(Product::Inner, *a, *b, 25, 31),
{
    let r = b.e3pn.mul(a.s);
    assert(r == partial_sum(Product::Inner, *a, *b, 25, 0));
    let r = r.add(b.e13pn.mul(a.e1));
    assert(r == partial_sum(Product::Inner, *a, *b, 25, 1));
    let r = r.add(b.e23pn.mul(a.e2));
    assert(r == partial_sum(Product::Inner, *a, *b, 25, 2));
    assert(r == partial_sum(Product::Inner, *a, *b, 25, 3));
    assert(r == partial_sum(Product::Inner, *a, *b, 25, 4));
    assert(r == partial_sum(Product::Inner, *a, *b, 25, 5));
    let r = r.sub(b.e123pn.mul(a.e12));
    assert(r == partial_sum(Product::Inner, *a, *b, 25, 6));
    assert(r == partial_sum(Product::Inner, *a, *b, 25, 7));
    assert(r == partial_sum(Product::Inner, *a, *b, 25, 8));
    assert(r == partial_sum(Product::Inner, *a, *b, 25, 9));
    assert(r == partial_sum(Product::Inner, *a, *b, 25, 10));
    assert(r == partial_sum(Product::Inner, *a, *b, 25, 11));
    assert(r == partial_sum(Product::Inner, *a, *b, 25, 12));
    assert(r == partial_sum(Product::Inner, *a, *b, 25, 13));
    assert(r == partial_sum(Product::Inner, *a, *b, 25, 14));
    assert(r == partial_sum(Product::Inner, *a, *b, 25, 15));
    assert(r == partial_sum(Product::Inner, *a, *b, 25, 16));
    assert(r == partial_sum(Product::Inner, *a, *b, 25, 17));
    assert(r == partial_sum(Product::Inner, *a, *b, 25, 18));
    assert(r == partial_sum(Product::Inner, *a, *b, 25, 19));
    assert(r == partial_sum(Product::Inner, *a, *b, 25, 20));
    assert(r == partial_sum(Product::Inner, *a, *b, 25, 21));
    assert(r == partial_sum(Product::Inner, *a, *b, 25, 22));
    assert(r == partial_sum(Product::Inner, *a, *b, 25, 23));
    assert(r == partial_sum(Product::Inner, *a, *b, 25, 24));
    let r = r.add(b.s.mul(a.e3pn));
    assert(r == partial_sum(Product::Inner, *a, *b, 25, 25));
    assert(r == partial_sum(Product::Inner, *a, *b, 25, 26));
    assert(r == partial_sum(Product::Inner, *a, *b, 25, 27));
    assert(r == partial_sum(Product::Inner, *a, *b, 25, 28));
    let r = r.sub(b.e1.mul(a.e13pn));
    assert(r == partial_sum(Product::Inner, *a, *b, 25, 29));
    let r = r.sub(b.e2.mul(a.e23pn));
    assert(r == partial_sum(Product::Inner, *a, *b, 25, 30));
    let r = r.sub(b.e12.mul(a.e123pn));
    assert(r == partial_sum(Product::Inner, *a, *b, 25, 31));
    r
}

/// The coefficient of `e123p` in the inner product of `a` and `b`.
fn inner_e123p<T: Field>(a: &R410<T>, b: &R410<T>) -> (r: T)
    ensures
        r == partial_sum(Product::Inner, *a, *b, 26, 31),
{
    let r = b.e123p.mul(a.s);
    assert(r == partial_sum(Product::Inner, *a, *b, 26, 0));
    assert(r == partial_sum(Product::Inner, *a, *b, 26, 1));
    assert(r == partial_sum(Product::Inner, *a, *b, 26, 2));
    assert(r == partial_sum(Product::Inner, *a, *b, 26, 3));
    assert(r == partial_sum(Product::Inner, *a, *b, 26, 4));
    let r = r.sub(b.e123pn.mul(a.en));
    assert(r == partial_sum(Product::Inner, *a, *b, 26, 5));
    assert(r == partial_sum(Product::Inner, *a, *b, 26, 6));
    assert(r == partial_sum(Product::Inner, *a, *b, 26, 7));
    assert(r == partial_sum(Product::Inner, *a, *b, 26, 8));
    assert(r == partial_sum(Product::Inner, *a, *b, 26, 9));
    assert(r == partial_sum(Product::Inner, *a, *b, 26, 10));
    assert(r == partial_sum(Product::Inner, *a, *b, 26, 11));
    assert(r == partial_sum(Product::Inner, *a, *b, 26, 12));
    assert(r == partial_sum(Product::Inner, *a, *b, 26, 13));
    assert(r == partial_sum(Product::Inner, *a, *b, 26, 14));
    assert(r == partial_sum(Product::Inner, *a, *b, 26, 15));
    assert(r == partial_sum(Product::Inner, *a, *b, 26, 16));
    assert(r == partial_sum(Product::Inner, *a, *b, 26, 17));
    assert(r == partial_sum(Product::Inner, *a, *b, 26, 18));
    assert(r == partial_sum(Product::Inner, *a, *b, 26, 19));
    assert(r == partial_sum(Product::Inner, *a, *b, 26, 20));
    assert(r == partial_sum(Product::Inner, *a, *b, 26, 21));
    assert(r == partial_sum(Product::Inner, *a, *b, 26, 22));
    assert(r == partial_sum(Product::Inner, *a, *b, 26, 23));
    assert(r == partial_sum(Product::Inner, *a, *b, 26, 24));
    assert(r == partial_sum(Product::Inner, *a, *b, 26, 25));
    let r = r.add(b.s.mul(a.e123p));
    assert(r == partial_sum(Product::Inner, *a, *b, 26, 26));
    assert(r == partial_sum(Product::Inner, *a, *b, 26, 27));
    assert(r == partial_sum(Product::Inner, *a, *b, 26, 28));
    assert(r == partial_sum(Product::Inner, *a, *b, 26, 29));
    assert(r == partial_sum(Product::Inner, *a, *b, 26, 30));
    let r = r.sub(b.en.mul(a.e123pn));
    assert(r == partial_sum(Product::Inner, *a, *b, 26, 31));
    r
}

/// The coefficient of `e123n` in the inner product of `a` and `b`.
fn inner_e123n<T: Field>(a: &R410<T>, b: &R410<T>) -> (r: T)
    ensures
        r == partial_sum(Product::Inner, *a, *b, 27, 31),
{
    let r = b.e123n.mul(a.s);
    assert(r == partial_sum(Product::Inner, *a, *b, 27, 0));
    assert(r == partial_sum(Product::Inner, *a, *b, 27, 1));
    assert(r == partial_sum(Product::Inner, *a, *b, 27, 2));
    assert(r == partial_sum(Product::Inner, *a, *b, 27, 3));
    let r = r.sub(b.e123pn.mul(a.ep));
    assert(r == partial_sum(Product::Inner, *a, *b, 27, 4));
    assert(r == partial_sum(Product::Inner, *a, *b, 27, 5));
    assert(r == partial_sum(Product::Inner, *a, *b, 27, 6));
    assert(r == partial_sum(Product::Inner, *a, *b, 27, 7));
    assert(r == partial_sum(Product::Inner, *a, *b, 27, 8));
    assert(r == partial_sum(Product::Inner, *a, *b, 27, 9));
    assert(r == partial_sum(Product::Inner, *a, *b, 27, 10));
    assert(r == partial_sum(Product::Inner, *a, *b, 27, 11));
    assert(r == partial_sum(Product::Inner, *a, *b, 27, 12));
    assert(r == partial_sum(Product::Inner, *a, *b, 27, 13));
    assert(r == partial_sum(Product::Inner, *a, *b, 27, 14));
    assert(r == partial_sum(Product::Inner, *a, *b, 27, 15));
    assert(r == partial_sum(Product::Inner, *a, *b, 27, 16));
    assert(r == partial_sum(Product::Inner, *a, *b, 27, 17));
    assert(r == partial_sum(Product::Inner, *a, *b, 27, 18));
    assert(r == partial_sum(Product::Inner, *a, *b, 27, 19));
    assert(r == partial_sum(Product::Inner, *a, *b, 27, 20));
    assert(r == partial_sum(Product::Inner, *a, *b, 27, 21));
    assert(r == partial_sum(Product::Inner, *a, *b, 27, 22));
    assert(r == partial_sum(Product::Inner, *a, *b, 27, 23));
    assert(r == partial_sum(Product::Inner, *a, *b, 27, 24));
    assert(r == partial_sum(Product::Inner, *a, *b, 27, 25));
    assert(r == partial_sum(Product::Inner, *a, *b, 27, 26));
    let r = r.add(b.s.mul(a.e123n));
    assert(r == partial_sum(Product::Inner, *a, *b, 27, 27));
    assert(r == partial_sum(Product::Inner, *a, *b, 27, 28));
    assert(r == partial_sum(Product::Inner, *a, *b, 27, 29));
    assert(r == partial_sum(Product::Inner, *a, *b, 27, 30));
    let r = r.sub(b.ep.mul(a.e123pn));
    assert(r == partial_sum(Product::Inner, *a, *b, 27, 31));
    r
}

/// The coefficient of `e12pn` in the inner product of `a` and `b`.
fn inner_e12pn<T: Field>(a: &R410<T>, b: &R410<T>) -> (r: T)
    ensures
        r == partial_sum(Product::Inner, *a, *b, 28, 31),
{
    let r = b.e12pn.mul(a.s);
    assert(r == partial_sum(Product::Inner, *a, *b, 28, 0));
    assert(r == partial_sum(Product::Inner, *a, *b, 28, 1));
    assert(r == partial_sum(Product::Inner, *a, *b, 28, 2));
    let r = r.add(b.e123pn.mul(a.e3));
    assert(r == partial_sum(Product::Inner, *a, *b, 28, 3));
    assert(r == partial_sum(Product::Inner, *a, *b, 28, 4));
    assert(r == partial_sum(Product::Inner, *a, *b, 28, 5));
    assert(r == partial_sum(Product::Inner, *a, *b, 28, 6));
    assert(r == partial_sum(Product::Inner, *a, *b, 28, 7));
    assert(r == partial_sum(Product::Inner, *a, *b, 28, 8));
    assert(r == partial_sum(Product::Inner, *a, *b, 28, 9));
    assert(r == partial_sum(Product::Inner, *a, *b, 28, 10));
    assert(r == partial_sum(Product::Inner, *a, *b, 28, 11));
    assert(r == partial_sum(Product::Inner, *a, *b, 28, 12));
    assert(r == partial_sum(Product::Inner, *a, *b, 28, 13));
    assert(r == partial_sum(Product::Inner, *a, *b, 28, 14));
    assert(r == partial_sum(Product::Inner, *a, *b, 28, 15));
    assert(r == partial_sum(Product::Inner, *a, *b, 28, 16));
    assert(r == partial_sum(Product::Inner, *a, *b, 28, 17));
    assert(r == partial_sum(Product::Inner, *a, *b, 28, 18));
    assert(r == partial_sum(Product::Inner, *a, *b, 28, 19));
    assert(r == partial_sum(Product::Inner, *a, *b, 28, 20));
    assert(r == partial_sum(Product::Inner, *a, *b, 28, 21));
    assert(r == partial_sum(Product::Inner, *a, *b, 28, 22));
    assert(r == partial_sum(Product::Inner, *a, *b, 28, 23));
    assert(r == partial_sum(Product::Inner, *a, *b, 28, 24));
    assert(r == partial_sum(Product::Inner, *a, *b, 28, 25));
    assert(r == partial_sum(Product::Inner, *a, *b, 28, 26));
    assert(r == partial_sum(Product::Inner, *a, *b, 28, 27));
    let r = r.add(b.s.mul(a.e12pn));
    assert(r == partial_sum(Product::Inner, *a, *b, 28, 28));
    assert(r == partial_sum(Product::Inner, *a, *b, 28, 29));
    assert(r == partial_sum(Product::Inner, *a, *b, 28, 30));
    let r = r.add(b.e3.mul(a.e123pn));
    assert(r == partial_sum(Product::Inner, *a, *b, 28, 31));
    r
}

/// The coefficient of `e13pn` in the inner product of `a` and `b`.
fn inner_e13pn<T: Field>(a: &R410<T>, b: &R410<T>) -> (r: T)
    ensures
        r == partial_sum(Product::Inner, *a, *b, 29, 31),
{
    let r = b.e13pn.mul(a.s);
    assert(r == partial_sum(Product::Inner, *a, *b, 29, 0));
    assert(r == partial_sum(Product::Inner, *a, *b, 29, 1));
    let r = r.sub(b.e123pn.mul(a.e2));
    assert(r == partial_sum(Product::Inner, *a, *b, 29, 2));
    assert(r == partial_sum(Product::Inner, *a, *b, 29, 3));
    assert(r == partial_sum(Product::Inner, *a, *b, 29, 4));
    assert(r == partial_sum(Product::Inner, *a, *b, 29, 5));
    assert(r == partial_sum(Product::Inner, *a, *b, 29, 6));
    assert(r == partial_sum(Product::Inner, *a, *b, 29, 7));
    assert(r == partial_sum(Product::Inner, *a, *b, 29, 8));
    assert(r == partial_sum(Product::Inner, *a, *b, 29, 9));
    assert(r == partial_sum(Product::Inner, *a, *b, 29, 10));
    assert(r == partial_sum(Product::Inner, *a, *b, 29, 11));
    assert(r == partial_sum(Product::Inner, *a, *b, 29, 12));
    assert(r == partial_sum(Product::Inner, *a, *b, 29, 13));
    assert(r == partial_sum(Product::Inner, *a, *b, 29, 14));
    assert(r == partial_sum(Product::Inner, *a, *b, 29, 15));
    assert(r == partial_sum(Product::Inner, *a, *b, 29, 16));
    assert(r == partial_sum(Product::Inner, *a, *b, 29, 17));
    assert(r == partial_sum(Product::Inner, *a, *b, 29, 18));
    assert(r == partial_sum(Product::Inner, *a, *b, 29, 19));
    assert(r == partial_sum(Product::Inner, *a, *b, 29, 20));
    assert(r == partial_sum(Product::Inner, *a, *b, 29, 21));
    assert(r == partial_sum(Product::Inner, *a, *b, 29, 22));
    assert(r == partial_sum(Product::Inner, *a, *b, 29, 23));
    assert(r == partial_sum(Product::Inner, *a, *b, 29, 24));
    assert(r == partial_sum(Product::Inner, *a, *b, 29, 25));
    assert(r == partial_sum(Product::Inner, *a, *b, 29, 26));
    assert(r == partial_sum(Product::Inner, *a, *b, 29, 27));
    assert(r == partial_sum(Product::Inner, *a, *b, 29, 28));
    let r = r.add(b.s.mul(a.e13pn));
    assert(r == partial_sum(Product::Inner, *a, *b, 29, 29));
    assert(r == partial_sum(Product::Inner, *a, *b, 29, 30));
    let r = r.sub(b.e2.mul(a.e123pn));
    assert(r == partial_sum(Product::Inner, *a, *b, 29, 31));
    r
}

/// The coefficient of `e23pn` in the inner product of `a` and `b`.
fn inner_e23pn<T: Field>(a: &R410<T>, b: &R410<T>) -> (r: T)
    ensures
        r == partial_sum(Product::Inner, *a, *b, 30, 31),
{
    let r = b.e23pn.mul(a.s);
    assert(r == partial_sum(Product::Inner, *a, *b, 30, 0));
    let r = r.add(b.e123pn.mul(a.e1));
    assert(r == partial_sum(Product::Inner, *a, *b, 30, 1));
    assert(r == partial_sum(Product::Inner, *a, *b, 30, 2));
    assert(r == partial_sum(Product::Inner, *a, *b, 30, 3));
    assert(r == partial_sum(Product::Inner, *a, *b, 30, 4));
    assert(r == partial_sum(Product::Inner, *a, *b, 30, 5));
    assert(r == partial_sum(Product::Inner, *a, *b, 30, 6));
    assert(r == partial_sum(Product::Inner, *a, *b, 30, 7));
    assert(r == partial_sum(Product::Inner, *a, *b, 30, 8));
    assert(r == partial_sum(Product::Inner, *a, *b, 30, 9));
    assert(r == partial_sum(Product::Inner, *a, *b, 30, 10));
    assert(r == partial_sum(Product::Inner, *a, *b, 30, 11));
    assert(r == partial_sum(Product::Inner, *a, *b, 30, 12));
    assert(r == partial_sum(Product::Inner, *a, *b, 30, 13));
    assert(r == partial_sum(Product::Inner, *a, *b, 30, 14));
    assert(r == partial_sum(Product::Inner, *a, *b, 30, 15));
    assert(r == partial_sum(Product::Inner, *a, *b, 30, 16));
    assert(r == partial_sum(Product::Inner, *a, *b, 30, 17));
    assert(r == partial_sum(Product::Inner, *a, *b, 30, 18));
    assert(r == partial_sum(Product::Inner, *a, *b, 30, 19));
    assert(r == partial_sum(Product::Inner, *a, *b, 30, 20));
    assert(r == partial_sum(Product::Inner, *a, *b, 30, 21));
    assert(r == partial_sum(Product::Inner, *a, *b, 30, 22));
    assert(r == partial_sum(Product::Inner, *a, *b, 30, 23));
    assert(r == partial_sum(Product::Inner, *a, *b, 30, 24));
    assert(r == partial_sum(Product::Inner, *a, *b, 30, 25));
    assert(r == partial_sum(Product::Inner, *a, *b, 30, 26));
    assert(r == partial_sum(Product::Inner, *a, *b, 30, 27));
    assert(r == partial_sum(Product::Inner, *a, *b, 30, 28));
    assert(r == partial_sum(Product::Inner, *a, *b, 30, 29));
    let r = r.add(b.s.mul(a.e23pn));
    assert(r == partial_sum(Product::Inner, *a, *b, 30, 30));
    let r = r.add(b.e1.mul(a.e123pn));
    assert(r == partial_sum(Product::Inner, *a, *b, 30, 31));
    r
}

/// The coefficient of `e123pn` in the inner product of `a` and `b`.
fn inner_e123pn<T: Field>(a: &R410<T>, b: &R410<T>) -> (r: T)
    ensures
        r == partial_sum(Product::Inner, *a, *b, 31, 31),
{
    let r = b.e123pn.mul(a.s);
    assert(r == partial_sum(Product::Inner, *a, *b, 31, 0));
    assert(r == partial_sum(Product::Inner, *a, *b, 31, 1));
    assert(r == partial_sum(Product::Inner, *a, *b, 31, 2));
    assert(r == partial_sum(Product::Inner, *a, *b, 31, 3));
    assert(r == partial_sum(Product::Inner, *a, *b, 31, 4));
    assert(r == partial_sum(Product::Inner, *a, *b, 31, 5));
    assert(r == partial_sum(Product::Inner, *a, *b, 31, 6));
    assert(r == partial_sum(Product::Inner, *a, *b, 31, 7));
    assert(r == partial_sum(Product::Inner, *a, *b, 31, 8));
    assert(r == partial_sum(Product::Inner, *a, *b, 31, 9));
    assert(r == partial_sum(Product::Inner, *a, *b, 31, 10));
    assert(r == partial_sum(Product::Inner, *a, *b, 31, 11));
    assert(r == partial_sum(Product::Inner, *a, *b, 31, 12));
    assert(r == partial_sum(Product::Inner, *a, *b, 31, 13));
    assert(r == partial_sum(Product::Inner, *a, *b, 31, 14));
    assert(r == partial_sum(Product::Inner, *a, *b, 31, 15));
    assert(r == partial_sum(Product::Inner, *a, *b, 31, 16));
    assert(r == partial_sum(Product::Inner, *a, *b, 31, 17));
    assert(r == partial_sum(Product::Inner, *a, *b, 31, 18));
    assert(r == partial_sum(Product::Inner, *a, *b, 31, 19));
    assert(r == partial_sum(Product::Inner, *a, *b, 31, 20));
    assert(r == partial_sum(Product::Inner, *a, *b, 31, 21));
    assert(r == partial_sum(Product::Inner, *a, *b, 31, 22));
    assert(r == partial_sum(Product::Inner, *a, *b, 31, 23));
    assert(r == partial_sum(Product::Inner, *a, *b, 31, 24));
    assert(r == partial_sum(Product::Inner, *a, *b, 31, 25));
    assert(r == partial_sum(Product::Inner, *a, *b, 31, 26));
    assert(r == partial_sum(Product::Inner, *a, *b, 31, 27));
    assert(r == partial_sum(Product::Inner, *a, *b, 31, 28));
    assert(r == partial_sum(Product::Inner, *a, *b, 31, 29));
    assert(r == partial_sum(Product::Inner, *a, *b, 31, 30));
    let r = r.add(b.s.mul(a.e123pn));
    assert(r == partial_sum(Product::Inner, *a, *b, 31, 31));
    r
}

} // verus!
