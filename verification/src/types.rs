//! Value types of Pine Script expressions as the analyzer sees them.

use vstd::prelude::*;

verus! {

/// The base (element) type of a value.
#[derive(Clone, Copy, Debug, PartialEq, Eq, Structural)]
pub enum BaseType {
    Int,
    Float,
    Bool,
    String,
    Color,
    Void,
    Unknown,
}

/// The type of an expression: a qualified base type, a tuple of types,
/// a user-defined type (enum or `type`), or unknown.
#[derive(Debug)]
pub enum Type {
    Unknown,
    Scalar(BaseType),
    Series(BaseType),
    Tuple(Vec<Type>),
    UserDefined(String),
}

/// The mathematical value of a `Type`: what two types are compared by.
pub enum TypeModel {
    Unknown,
    Scalar(BaseType),
    Series(BaseType),
    Tuple(Seq<TypeModel>),
    UserDefined(Seq<char>),
}

pub open spec fn base_type_name(b: BaseType) -> Seq<char> {
    match b {
        BaseType::Int => "int"@,
        BaseType::Float => "float"@,
        BaseType::Bool => "bool"@,
        BaseType::String => "string"@,
        BaseType::Color => "color"@,
        BaseType::Void => "void"@,
        BaseType::Unknown => "unknown"@,
    }
}

impl BaseType {
    /// The name of the base type as it is written in Pine Script.
    pub fn display_name(&self) -> (r: String)
        ensures
            r@ == base_type_name(*self),
    {
        let s = match self {
            BaseType::Int => "int",
            BaseType::Float => "float",
            BaseType::Bool => "bool",
            BaseType::String => "string",
            BaseType::Color => "color",
            BaseType::Void => "void",
            BaseType::Unknown => "unknown",
        };
        String::from_str(s)
    }
}

pub open spec fn model_base(m: TypeModel) -> BaseType {
    match m {
        TypeModel::Scalar(b) => b,
        TypeModel::Series(b) => b,
        _ => BaseType::Unknown,
    }
}

pub open spec fn model_is_series(m: TypeModel) -> bool {
    m is Series
}

impl Type {
    pub open spec fn model(self) -> TypeModel
        decreases self,
    {
        match self {
            Type::Unknown => TypeModel::Unknown,
            Type::Scalar(b) => TypeModel::Scalar(b),
            Type::Series(b) => TypeModel::Series(b),
            Type::Tuple(items) => TypeModel::Tuple(
                Seq::new(
                    items@.len(),
                    |i: int|
                        if 0 <= i < items@.len() {
                            proof {
                                vstd::std_specs::vec::axiom_vec_index_decreases(items, i);
                            }
                            items@[i].model()
                        } else {
                            TypeModel::Unknown
                        },
                ),
            ),
            Type::UserDefined(name) => TypeModel::UserDefined(name@),
        }
    }

    /// The model of a tuple holds the models of its items, in order.
    pub proof fn lemma_tuple_model(items: Vec<Type>)
        ensures
            Type::Tuple(items).model() is Tuple,
            Type::Tuple(items).model()->Tuple_0.len() == items@.len(),
            forall|k: int|
                0 <= k < items@.len() ==> #[trigger] Type::Tuple(items).model()->Tuple_0[k]
                    == items@[k].model(),
    {
    }

    pub fn unknown() -> (r: Type)
        ensures
            r.model() == TypeModel::Unknown,
    {
        Type::Unknown
    }

    pub fn scalar(base: BaseType) -> (r: Type)
        ensures
            r.model() == TypeModel::Scalar(base),
    {
        Type::Scalar(base)
    }

    pub fn series(base: BaseType) -> (r: Type)
        ensures
            r.model() == TypeModel::Series(base),
    {
        Type::Series(base)
    }

    /// A tuple of the given item types.
    pub fn tuple(items: Vec<Type>) -> (r: Type)
        ensures
            r.model() == TypeModel::Tuple(items@.map_values(|t: Type| t.model())),
    {
        proof {
            Type::lemma_tuple_model(items);
            assert(Type::Tuple(items).model()->Tuple_0 =~= items@.map_values(|t: Type| t.model()));
        }
        Type::Tuple(items)
    }

    /// The base type of a qualified type; `Unknown` for tuples, user types and unknown.
    pub fn base(&self) -> (r: BaseType)
        ensures
            r == model_base(self.model()),
    {
        match self {
            Type::Scalar(b) => *b,
            Type::Series(b) => *b,
            _ => BaseType::Unknown,
        }
    }

    pub fn is_series(&self) -> (r: bool)
        ensures
            r == model_is_series(self.model()),
    {
        match self {
            Type::Series(_) => true,
            _ => false,
        }
    }

    pub fn is_unknown(&self) -> (r: bool)
        ensures
            r == (self.model() is Unknown),
    {
        match self {
            Type::Unknown => true,
            _ => false,
        }
    }

    /// A copy of this type with the same model.
    #[verifier::loop_isolation(false)]
    pub fn duplicate(&self) -> (r: Type)
        ensures
            r.model() == self.model(),
        decreases self,
    {
        match self {
            Type::Unknown => Type::Unknown,
            Type::Scalar(b) => Type::Scalar(*b),
            Type::Series(b) => Type::Series(*b),
            Type::UserDefined(name) => Type::UserDefined(name.clone()),
            Type::Tuple(items) => {
                let mut out: Vec<Type> = Vec::new();
                let mut i: usize = 0;
                while i < items.len()
                    invariant
                        i <= items@.len(),
                        out@.len() == i,
                        forall|j: int| 0 <= j < i ==> #[trigger] out@[j].model() == items@[j].model(),
                    decreases items@.len() - i,
                {
                    proof {
                        vstd::std_specs::vec::axiom_vec_index_decreases(*items, i as int);
                    }
                    let item = items[i].duplicate();
                    out.push(item);
                    i = i + 1;
                }
                let r = Type::Tuple(out);
                proof {
                    Type::lemma_tuple_model(out);
                    Type::lemma_tuple_model(*items);
                    assert(r.model()->Tuple_0 =~= self.model()->Tuple_0);
                }
                r
            },
        }
    }

    /// Whether two types have the same model.
    #[verifier::loop_isolation(false)]
    pub fn same_as(&self, other: &Type) -> (r: bool)
        ensures
            r == (self.model() == other.model()),
        decreases self,
    {
        match (self, other) {
            (Type::Unknown, Type::Unknown) => true,
            (Type::Scalar(a), Type::Scalar(b)) => *a == *b,
            (Type::Series(a), Type::Series(b)) => *a == *b,
            (Type::UserDefined(a), Type::UserDefined(b)) => {
                let r = *a == *b;
                proof {
                    if !r {
                        assert(self.model()->UserDefined_0 != other.model()->UserDefined_0);
                    }
                }
                r
            },
            (Type::Tuple(a), Type::Tuple(b)) => {
                proof {
                    Type::lemma_tuple_model(*a);
                    Type::lemma_tuple_model(*b);
                }
                if a.len() != b.len() {
                    proof {
                        let ma = self.model();
                        let mb = other.model();
                        assert(ma->Tuple_0.len() != mb->Tuple_0.len());
                    }
                    return false;
                }
                let mut i: usize = 0;
                while i < a.len()
                    invariant
                        i <= a@.len(),
                        a@.len() == b@.len(),
                        forall|j: int| 0 <= j < i ==> #[trigger] a@[j].model() == b@[j].model(),
                    decreases a@.len() - i,
                {
                    proof {
                        vstd::std_specs::vec::axiom_vec_index_decreases(*a, i as int);
                    }
                    if !a[i].same_as(&b[i]) {
                        proof {
                            let ma = self.model();
                            let mb = other.model();
                            assert(ma->Tuple_0[i as int] != mb->Tuple_0[i as int]);
                        }
                        return false;
                    }
                    i = i + 1;
                }
                proof {
                    let ma = self.model();
                    let mb = other.model();
                    assert(ma->Tuple_0 =~= mb->Tuple_0);
                    assert(ma == mb);
                }
                true
            },
            _ => false,
        }
    }
}


/// The text of a type as it is shown: the base type name, `series ` before
/// a series type, the items of a tuple in brackets, a user type's name.
pub open spec fn type_text(m: TypeModel) -> Seq<char>
    decreases m,
{
    match m {
        TypeModel::Unknown => "unknown"@,
        TypeModel::Scalar(b) => base_type_name(b),
        TypeModel::Series(b) => "series "@ + base_type_name(b),
        TypeModel::UserDefined(name) => name,
        TypeModel::Tuple(items) => "["@ + items_text(items, items.len() as int) + "]"@,
    }
}

/// The texts of the first `k` items, separated by `, `.
pub open spec fn items_text(items: Seq<TypeModel>, k: int) -> Seq<char>
    decreases items, k,
{
    if k <= 0 || k > items.len() {
        Seq::empty()
    } else if k == 1 {
        type_text(items[0])
    } else {
        items_text(items, k - 1) + ", "@ + type_text(items[k - 1])
    }
}

impl Type {
    /// The text of this type as it is shown (see `type_text`).
    #[verifier::loop_isolation(false)]
    pub fn display_name(&self) -> (r: Vec<char>)
        ensures
            r@ == type_text(self.model()),
        decreases self,
    {
        match self {
            Type::Unknown => crate::text::chars_of("unknown"),
            Type::Scalar(b) => crate::text::chars_of(b.display_name().as_str()),
            Type::Series(b) => {
                let mut r = crate::text::chars_of("series ");
                let n = b.display_name();
                crate::fmt::push_str(&mut r, n.as_str());
                r
            },
            Type::UserDefined(name) => crate::text::chars_of(name.as_str()),
            Type::Tuple(items) => {
                proof {
                    Type::lemma_tuple_model(*items);
                }
                let ghost ms = self.model()->Tuple_0;
                let mut r = crate::text::chars_of("[");
                let mut inner: Vec<char> = Vec::new();
                let mut i: usize = 0;
                while i < items.len()
                    invariant
                        i <= items@.len(),
                        ms.len() == items@.len(),
                        forall|k: int| 0 <= k < items@.len() ==> #[trigger] ms[k] == items@[k].model(),
                        inner@ == items_text(ms, i as int),
                    decreases items@.len() - i,
                {
                    proof {
                        vstd::std_specs::vec::axiom_vec_index_decreases(*items, i as int);
                    }
                    if i > 0 {
                        crate::fmt::push_str(&mut inner, ", ");
                    }
                    let t = items[i].display_name();
                    crate::fmt::push_chars(&mut inner, &t);
                    i = i + 1;
                }
                crate::fmt::push_chars(&mut r, &inner);
                crate::fmt::push_str(&mut r, "]");
                r
            },
        }
    }
}

} // verus!
