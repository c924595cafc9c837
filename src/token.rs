use crate::expiration::{expired_at, Expiration, LogicalTime};
use cosmwasm_std::Coin;
use vstd::prelude::*;

verus! {

#[verifier::external_type_specification]
#[verifier::external_body]
pub struct ExCoin(Coin);

/// The canonical form of an account address: its raw bytes.
#[derive(Clone, PartialEq, Eq, Debug, Default)]
pub struct CanonicalAddress {
    pub bytes: Vec<u8>,
}

impl View for CanonicalAddress {
    type V = Seq<u8>;

    open spec fn view(&self) -> Seq<u8> {
        self.bytes@
    }
}

impl CanonicalAddress {
    /// Returns true if both addresses hold the same bytes.
    pub fn equals(&self, other: &CanonicalAddress) -> (r: bool)
        ensures
            r == (self@ == other@),
    {
        let n = self.bytes.len();
        if n != other.bytes.len() {
            return false;
        }
        let mut i: usize = 0;
        while i < n
            invariant
                n == self@.len(),
                n == other@.len(),
                i <= n,
                forall|j: int| 0 <= j < i ==> self@[j] == other@[j],
            decreases n - i,
        {
            if self.bytes[i] != other.bytes[i] {
                return false;
            }
            i = i + 1;
        }
        assert(self@ =~= other@);
        true
    }
}

/// The categories of action that a permission can grant.
#[derive(PartialEq, Eq, Structural, Clone, Copy, Debug)]
pub enum PermissionType {
    /// see who owns the token
    ViewOwner,
    /// see the token's private metadata
    ViewMetadata,
    /// transfer the token
    Transfer,
}

/// A grant from a token's owner to another address. Each category holds the
/// expiration of its grant, or `None` where that category is not granted.
#[derive(Clone, PartialEq, Debug)]
pub struct Permission {
    /// the address that is granted
    pub address: CanonicalAddress,
    /// grant to view the owner
    pub view_owner: Option<Expiration>,
    /// grant to view private metadata
    pub view_metadata: Option<Expiration>,
    /// grant to transfer
    pub transfer: Option<Expiration>,
}

/// The expiration of the grant of `p` for `action`, if it grants it.
pub open spec fn grant_for(p: Permission, action: PermissionType) -> Option<Expiration> {
    match action {
        PermissionType::ViewOwner => p.view_owner,
        PermissionType::ViewMetadata => p.view_metadata,
        PermissionType::Transfer => p.transfer,
    }
}

/// Whether `p` grants `action` to `requester` and its grant has not elapsed at
/// `now`.
pub open spec fn live_grant(
    p: Permission,
    requester: Seq<u8>,
    action: PermissionType,
    now: LogicalTime,
) -> bool {
    &&& p.address@ == requester
    &&& grant_for(p, action) is Some
    &&& !expired_at(grant_for(p, action)->Some_0, now)
}

impl Permission {
    /// The expiration of this permission's grant for `action`, if it grants it.
    pub fn expiration_for(&self, action: PermissionType) -> (r: Option<Expiration>)
        ensures
            r == grant_for(*self, action),
    {
        match action {
            PermissionType::ViewOwner => self.view_owner,
            PermissionType::ViewMetadata => self.view_metadata,
            PermissionType::Transfer => self.transfer,
        }
    }
}

/// Why an operation on a token was refused.
#[derive(PartialEq, Eq, Structural, Clone, Copy, Debug)]
pub enum TokenError {
    /// the token is pledged as collateral
    TokenLocked,
    /// the requester may not perform the operation
    Unauthorized,
    /// the collateral is not in a state that permits the operation
    InvalidTransition,
    /// the collateral's expiration has not elapsed yet
    NotYetRedeemable,
}

/// token
#[derive(Clone, PartialEq, Debug)]
pub struct Token {
    /// owner
    pub owner: CanonicalAddress,
    /// permissions granted for this token
    pub permissions: Vec<Permission>,
    /// true if this token has been unwrapped.  If sealed metadata is not enabled, all
    /// tokens are considered unwrapped
    pub unwrapped: bool,
    /// true if this token has been collateralised, if so then no operation can be performed
    /// apart from the collateral operations that release it
    pub collateralised: bool,
}

/// CollateralInfo
#[derive(PartialEq, Debug)]
pub struct CollateralInfo {
    /// price willing to accept collateral at
    pub price: Coin,
    /// price willing to relay at
    pub repayment: Coin,
    /// expiration is the time after which the collateral can be redeemed by the holder
    /// of the collateral
    pub expiration: Expiration,
    /// collateral holder
    pub holder: Option<CanonicalAddress>,
}

/// Whether `requester` may perform `action` on `t` at `now`: a pledged token
/// refuses everyone; otherwise the owner may do anything, and another address
/// needs a grant for the action that has not elapsed.
pub open spec fn permission_outcome(
    t: Token,
    requester: Seq<u8>,
    action: PermissionType,
    now: LogicalTime,
) -> Result<(), TokenError> {
    if t.collateralised {
        Err(TokenError::TokenLocked)
    } else if t.owner@ == requester {
        Ok(())
    } else if exists|i: int|
        0 <= i < t.permissions@.len() && live_grant(t.permissions@[i], requester, action, now) {
        Ok(())
    } else {
        Err(TokenError::Unauthorized)
    }
}

/// The token is pledged and nobody has taken the pledge yet.
pub open spec fn is_pledged(t: Token, info: Option<CollateralInfo>) -> bool {
    t.collateralised && info is Some && info->Some_0.holder is None
}

/// The token is pledged and a holder has taken the pledge.
pub open spec fn is_held(t: Token, info: Option<CollateralInfo>) -> bool {
    t.collateralised && info is Some && info->Some_0.holder is Some
}

/// The holder of a taken pledge.
pub open spec fn holder_of(info: Option<CollateralInfo>) -> Seq<u8> {
    info->Some_0.holder->Some_0@
}

/// An operation reserved to the owner of an unpledged token: pledging it,
/// granting or revoking permissions.
pub open spec fn owner_outcome(t: Token, requester: Seq<u8>) -> Result<(), TokenError> {
    if t.collateralised {
        Err(TokenError::TokenLocked)
    } else if t.owner@ != requester {
        Err(TokenError::Unauthorized)
    } else {
        Ok(())
    }
}

/// Accepting a pledge: legal only while nobody holds it.
pub open spec fn accept_outcome(t: Token, info: Option<CollateralInfo>) -> Result<(), TokenError> {
    if is_pledged(t, info) {
        Ok(())
    } else {
        Err(TokenError::InvalidTransition)
    }
}

/// Repaying a pledge: legal while it is held, and only for the owner who
/// pledged the token. Gives back the released record.
pub open spec fn repay_outcome(
    t: Token,
    info: Option<CollateralInfo>,
    requester: Seq<u8>,
) -> Result<CollateralInfo, TokenError> {
    if !is_held(t, info) {
        Err(TokenError::InvalidTransition)
    } else if t.owner@ != requester {
        Err(TokenError::Unauthorized)
    } else {
        Ok(info->Some_0)
    }
}

/// Redeeming a pledge: legal while it is held, only for its holder, and only
/// once its expiration has elapsed. Gives back the released record.
pub open spec fn redeem_outcome(
    t: Token,
    info: Option<CollateralInfo>,
    requester: Seq<u8>,
    now: LogicalTime,
) -> Result<CollateralInfo, TokenError> {
    if !is_held(t, info) {
        Err(TokenError::InvalidTransition)
    } else if holder_of(info) != requester {
        Err(TokenError::Unauthorized)
    } else if !expired_at(info->Some_0.expiration, now) {
        Err(TokenError::NotYetRedeemable)
    } else {
        Ok(info->Some_0)
    }
}

/// Clearing the collateral flag without settlement: legal on any pledged
/// token. Gives back whatever record was associated.
pub open spec fn uncollateralise_outcome(
    t: Token,
    info: Option<CollateralInfo>,
) -> Result<Option<CollateralInfo>, TokenError> {
    if !t.collateralised {
        Err(TokenError::InvalidTransition)
    } else {
        Ok(info)
    }
}

/// `p` with its grant for `action` set to `g`.
pub open spec fn with_grant(p: Permission, action: PermissionType, g: Option<Expiration>) -> Permission {
    match action {
        PermissionType::ViewOwner => Permission { view_owner: g, ..p },
        PermissionType::ViewMetadata => Permission { view_metadata: g, ..p },
        PermissionType::Transfer => Permission { transfer: g, ..p },
    }
}

/// `ps` with the grant for `action` set to `g` in every entry of `grantee`.
pub open spec fn regrant(
    ps: Seq<Permission>,
    grantee: Seq<u8>,
    action: PermissionType,
    g: Option<Expiration>,
) -> Seq<Permission> {
    ps.map_values(
        |p: Permission|
            if p.address@ == grantee {
                with_grant(p, action, g)
            } else {
                p
            },
    )
}

/// Whether `ps` holds an entry for `grantee`.
pub open spec fn has_entry(ps: Seq<Permission>, grantee: Seq<u8>) -> bool {
    exists|i: int| 0 <= i < ps.len() && ps[i].address@ == grantee
}

/// The permission list after `grantee` is granted `action` until `e`: its
/// entries are updated, or a new entry holding only that grant is appended.
pub open spec fn granted(
    ps: Seq<Permission>,
    grantee: CanonicalAddress,
    action: PermissionType,
    e: Expiration,
) -> Seq<Permission> {
    if has_entry(ps, grantee@) {
        regrant(ps, grantee@, action, Some(e))
    } else {
        ps.push(
            with_grant(
                Permission { address: grantee, view_owner: None, view_metadata: None, transfer: None },
                action,
                Some(e),
            ),
        )
    }
}

impl Permission {
    /// This permission with its grant for `action` set to `g`.
    pub fn set_grant(self, action: PermissionType, g: Option<Expiration>) -> (q: Permission)
        ensures
            q == with_grant(self, action, g),
    {
        match action {
            PermissionType::ViewOwner => Permission { view_owner: g, ..self },
            PermissionType::ViewMetadata => Permission { view_metadata: g, ..self },
            PermissionType::Transfer => Permission { transfer: g, ..self },
        }
    }
}

/// Sets the grant for `action` to `g` in every entry of `grantee`, and tells
/// whether there was one.
fn regrant_all(
    ps: &mut Vec<Permission>,
    grantee: &CanonicalAddress,
    action: PermissionType,
    g: Option<Expiration>,
) -> (found: bool)
    ensures
        final(ps)@ == regrant(old(ps)@, grantee@, action, g),
        found == has_entry(old(ps)@, grantee@),
{
    let ghost start = ps@;
    let mut found = false;
    let mut i: usize = 0;
    while i < ps.len()
        invariant
            ps@.len() == start.len(),
            i <= ps@.len(),
            forall|j: int| 0 <= j < i ==> #[trigger] ps@[j] == regrant(start, grantee@, action, g)[j],
            forall|j: int| i <= j < ps@.len() ==> #[trigger] ps@[j] == start[j],
            found == exists|j: int| 0 <= j < i && start[j].address@ == grantee@,
        decreases ps@.len() - i,
    {
        if ps[i].address.equals(grantee) {
            let p = ps.remove(i);
            ps.insert(i, p.set_grant(action, g));
            found = true;
        }
        i = i + 1;
    }
    assert(ps@ =~= regrant(start, grantee@, action, g));
    found
}

impl Token {
    /// Decides whether `requester` may perform `action` on this token at `now`.
    pub fn check_permission(
        &self,
        requester: &CanonicalAddress,
        action: PermissionType,
        now: &LogicalTime,
    ) -> (r: Result<(), TokenError>)
        ensures
            r == permission_outcome(*self, requester@, action, *now),
    {
        if self.collateralised {
            return Err(TokenError::TokenLocked);
        }
        if self.owner.equals(requester) {
            return Ok(());
        }
        let mut i: usize = 0;
        while i < self.permissions.len()
            invariant
                !self.collateralised,
                self.owner@ != requester@,
                i <= self.permissions@.len(),
                forall|j: int|
                    0 <= j < i ==> !live_grant(#[trigger] self.permissions@[j], requester@, action, *now),
            decreases self.permissions@.len() - i,
        {
            let p = &self.permissions[i];
            if p.address.equals(requester) {
                match p.expiration_for(action) {
                    Some(e) => {
                        if !e.is_expired(now) {
                            assert(live_grant(self.permissions@[i as int], requester@, action, *now));
                            assert(exists|k: int|
                                0 <= k < self.permissions@.len() && live_grant(
                                    self.permissions@[k],
                                    requester@,
                                    action,
                                    *now,
                                ));
                            return Ok(());
                        }
                    },
                    None => {},
                }
            }
            i = i + 1;
        }
        Err(TokenError::Unauthorized)
    }

    /// The owner grants `grantee` the right to `action` until `expiration`.
    pub fn grant_permission(
        &mut self,
        requester: &CanonicalAddress,
        grantee: CanonicalAddress,
        action: PermissionType,
        expiration: Expiration,
    ) -> (r: Result<(), TokenError>)
        ensures
            r == owner_outcome(*old(self), requester@),
            r is Ok ==> {
                &&& final(self).permissions@ == granted(old(self).permissions@, grantee, action, expiration)
                &&& final(self).owner == old(self).owner
                &&& final(self).unwrapped == old(self).unwrapped
                &&& final(self).collateralised == old(self).collateralised
            },
            r is Err ==> *final(self) == *old(self),
    {
        if self.collateralised {
            return Err(TokenError::TokenLocked);
        }
        if !self.owner.equals(requester) {
            return Err(TokenError::Unauthorized);
        }
        let found = regrant_all(&mut self.permissions, &grantee, action, Some(expiration));
        if !found {
            let fresh = Permission { address: grantee, view_owner: None, view_metadata: None, transfer: None };
            self.permissions.push(fresh.set_grant(action, Some(expiration)));
        }
        Ok(())
    }

    /// The owner withdraws every grant of `action` to `grantee`.
    pub fn revoke_permission(
        &mut self,
        requester: &CanonicalAddress,
        grantee: &CanonicalAddress,
        action: PermissionType,
    ) -> (r: Result<(), TokenError>)
        ensures
            r == owner_outcome(*old(self), requester@),
            r is Ok ==> {
                &&& final(self).permissions@ == regrant(old(self).permissions@, grantee@, action, None)
                &&& final(self).owner == old(self).owner
                &&& final(self).unwrapped == old(self).unwrapped
                &&& final(self).collateralised == old(self).collateralised
            },
            r is Err ==> *final(self) == *old(self),
    {
        if self.collateralised {
            return Err(TokenError::TokenLocked);
        }
        if !self.owner.equals(requester) {
            return Err(TokenError::Unauthorized);
        }
        regrant_all(&mut self.permissions, grantee, action, None);
        Ok(())
    }

    /// Pledges this token: only its owner may, and only while it is not
    /// pledged. Creates the collateral record with no holder.
    pub fn enter_collateral(
        &mut self,
        info: &mut Option<CollateralInfo>,
        requester: &CanonicalAddress,
        price: Coin,
        repayment: Coin,
        expiration: Expiration,
    ) -> (r: Result<(), TokenError>)
        ensures
            r == owner_outcome(*old(self), requester@),
            r is Ok ==> {
                &&& final(self).collateralised
                &&& final(self).owner == old(self).owner
                &&& final(self).permissions == old(self).permissions
                &&& final(self).unwrapped == old(self).unwrapped
                &&& *final(info) == Some(
                    CollateralInfo { price, repayment, expiration, holder: None },
                )
                &&& is_pledged(*final(self), *final(info))
            },
            r is Err ==> *final(self) == *old(self) && *final(info) == *old(info),
    {
        if self.collateralised {
            return Err(TokenError::TokenLocked);
        }
        if !self.owner.equals(requester) {
            return Err(TokenError::Unauthorized);
        }
        self.collateralised = true;
        *info = Some(CollateralInfo { price, repayment, expiration, holder: None });
        Ok(())
    }

    /// `taker` takes the pledge of this token, which nobody may hold yet.
    pub fn accept_collateral(
        &self,
        info: &mut Option<CollateralInfo>,
        taker: CanonicalAddress,
    ) -> (r: Result<(), TokenError>)
        ensures
            r == accept_outcome(*self, *old(info)),
            r is Ok ==> *final(info) == Some(
                CollateralInfo { holder: Some(taker), ..old(info)->Some_0 },
            ),
            r is Ok ==> is_held(*self, *final(info)) && holder_of(*final(info)) == taker@,
            r is Err ==> *final(info) == *old(info),
    {
        if !self.collateralised {
            return Err(TokenError::InvalidTransition);
        }
        let open = match info {
            Some(ci) => ci.holder.is_none(),
            None => false,
        };
        if !open {
            return Err(TokenError::InvalidTransition);
        }
        let ci = info.take().unwrap();
        *info = Some(CollateralInfo { holder: Some(taker), ..ci });
        Ok(())
    }

    /// The owner repays the held pledge of this token: the token is released
    /// and the collateral record is handed back for settlement.
    pub fn repay_collateral(
        &mut self,
        info: &mut Option<CollateralInfo>,
        requester: &CanonicalAddress,
    ) -> (r: Result<CollateralInfo, TokenError>)
        ensures
            r == repay_outcome(*old(self), *old(info), requester@),
            r is Ok ==> {
                &&& !final(self).collateralised
                &&& final(self).owner == old(self).owner
                &&& final(self).permissions == old(self).permissions
                &&& final(self).unwrapped == old(self).unwrapped
                &&& *final(info) == None::<CollateralInfo>
            },
            r is Err ==> *final(self) == *old(self) && *final(info) == *old(info),
    {
        if !self.collateralised {
            return Err(TokenError::InvalidTransition);
        }
        let held = match info {
            Some(ci) => ci.holder.is_some(),
            None => false,
        };
        if !held {
            return Err(TokenError::InvalidTransition);
        }
        if !self.owner.equals(requester) {
            return Err(TokenError::Unauthorized);
        }
        self.collateralised = false;
        Ok(info.take().unwrap())
    }

    /// The holder redeems the pledge of this token once its expiration has
    /// elapsed at `now`: the token is released and the collateral record is
    /// handed back for settlement.
    pub fn redeem_collateral(
        &mut self,
        info: &mut Option<CollateralInfo>,
        requester: &CanonicalAddress,
        now: &LogicalTime,
    ) -> (r: Result<CollateralInfo, TokenError>)
        ensures
            r == redeem_outcome(*old(self), *old(info), requester@, *now),
            r is Ok ==> {
                &&& !final(self).collateralised
                &&& final(self).owner == old(self).owner
                &&& final(self).permissions == old(self).permissions
                &&& final(self).unwrapped == old(self).unwrapped
                &&& *final(info) == None::<CollateralInfo>
            },
            r is Err ==> *final(self) == *old(self) && *final(info) == *old(info),
    {
        if !self.collateralised {
            return Err(TokenError::InvalidTransition);
        }
        let step = match info {
            Some(ci) => match &ci.holder {
                Some(h) => {
                    if !h.equals(requester) {
                        Err(TokenError::Unauthorized)
                    } else if !ci.expiration.is_expired(now) {
                        Err(TokenError::NotYetRedeemable)
                    } else {
                        Ok(())
                    }
                },
                None => Err(TokenError::InvalidTransition),
            },
            None => Err(TokenError::InvalidTransition),
        };
        match step {
            Err(e) => Err(e),
            Ok(()) => {
                self.collateralised = false;
                Ok(info.take().unwrap())
            },
        }
    }

    /// Clears the collateral flag of a pledged token without settlement, and
    /// hands back whatever collateral record it had. This escape hatch does
    /// not decide who may use it: the caller authorises it.
    pub fn uncollateralise(&mut self, info: &mut Option<CollateralInfo>) -> (r: Result<
        Option<CollateralInfo>,
        TokenError,
    >)
        ensures
            r == uncollateralise_outcome(*old(self), *old(info)),
            r is Ok ==> {
                &&& !final(self).collateralised
                &&& final(self).owner == old(self).owner
                &&& final(self).permissions == old(self).permissions
                &&& final(self).unwrapped == old(self).unwrapped
                &&& *final(info) == None::<CollateralInfo>
            },
            r is Err ==> *final(self) == *old(self) && *final(info) == *old(info),
    {
        if !self.collateralised {
            return Err(TokenError::InvalidTransition);
        }
        self.collateralised = false;
        Ok(info.take())
    }
}

/// A pledged token refuses every operation to every requester, its owner
/// included: checking a permission, granting or revoking one, and pledging it
/// again all fail with `TokenLocked`. Only the collateral operations (accept,
/// repay, redeem, uncollateralise) act on it.
pub proof fn lemma_lock_supremacy(
    t: Token,
    requester: Seq<u8>,
    action: PermissionType,
    now: LogicalTime,
)
    requires
        t.collateralised,
    ensures
        permission_outcome(t, requester, action, now) == Err::<(), TokenError>(
            TokenError::TokenLocked,
        ),
        owner_outcome(t, requester) == Err::<(), TokenError>(TokenError::TokenLocked),
{
}

/// The holder of a held pledge can redeem it exactly when its expiration has
/// elapsed; before that the attempt fails with `NotYetRedeemable`.
pub proof fn lemma_redeem_gating(
    t: Token,
    info: Option<CollateralInfo>,
    now: LogicalTime,
)
    requires
        is_held(t, info),
    ensures
        !expired_at(info->Some_0.expiration, now) ==> redeem_outcome(t, info, holder_of(info), now)
            == Err::<CollateralInfo, TokenError>(TokenError::NotYetRedeemable),
        expired_at(info->Some_0.expiration, now) ==> redeem_outcome(t, info, holder_of(info), now)
            == Ok::<CollateralInfo, TokenError>(info->Some_0),
{
}

} // verus!
