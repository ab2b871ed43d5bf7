use two_sided_marketplace::{
    purchase_service, resell_service, Account, ErrorCode, Identity, Marketplace, PurchaseService,
    ResellService, Service, Signer, TokenAccount, Transfer, NFT,
};

fn key(n: u8) -> Identity {
    Identity { bytes: [n; 32] }
}

fn party(n: u8) -> Signer {
    Signer { key: key(n), is_signer: true }
}

const ALICE: u8 = 1;
const BOB: u8 = 2;
const CAROL: u8 = 3;
const VENDOR: u8 = 4;
const PAYER: u8 = 5;
const SERVICE: u8 = 10;
const MINT: u8 = 13;

fn listing(price: u64, is_soulbound: bool) -> Account<Service> {
    Account {
        key: key(SERVICE),
        data: Service {
            vendor: key(VENDOR),
            name: String::from("Piano lesson"),
            description: String::from("One hour, any level"),
            price,
            is_soulbound,
            is_active: true,
        },
    }
}

/// The balance in which a party keeps its receipt tokens.
fn wallet(owner: u8, amount: u64) -> TokenAccount {
    TokenAccount { key: key(100 + owner), amount }
}

fn buy(service: &Account<Service>, buyer: u8, place: u8, fee: u64) -> PurchaseService {
    PurchaseService {
        service: service.clone(),
        marketplace: Account { key: key(11), data: Marketplace { authority: key(9), fee } },
        buyer: party(buyer),
        buyer_token_account: TokenAccount { key: key(50 + buyer), amount: 10_000 },
        vendor_token_account: TokenAccount { key: key(50 + VENDOR), amount: 0 },
        marketplace_token_account: TokenAccount { key: key(59), amount: 0 },
        nft: Account { key: key(place), data: None },
        nft_mint: key(MINT),
        buyer_nft_token_account: wallet(buyer, 0),
        payer: party(PAYER),
    }
}

/// The resale as the ledger presents it once the purchase has been settled:
/// the owner's wallet holds the one receipt token.
fn offer(service: &Account<Service>, receipt: Account<NFT>, seller: u8, buyer: u8) -> ResellService {
    ResellService {
        service: service.clone(),
        nft: receipt,
        seller: party(seller),
        buyer: party(buyer),
        seller_nft_token_account: wallet(seller, 1),
        buyer_nft_token_account: wallet(buyer, 0),
        nft_mint: key(MINT),
    }
}

fn minted(purchase: &PurchaseService) -> Account<NFT> {
    Account { key: purchase.nft.key, data: purchase.nft.data.unwrap() }
}

#[test]
fn soulbound_receipt_cannot_be_resold_by_its_buyer() {
    let service = listing(50, true);
    let mut purchase = buy(&service, ALICE, 30, 5);
    let settlement = purchase_service(&mut purchase).unwrap();
    assert_eq!(settlement.vendor_payment.amount, 45);
    assert_eq!(settlement.receipt.amount, 1);
    let receipt = minted(&purchase);
    assert!(receipt.data.is_soulbound);
    assert_eq!(receipt.data.owner, key(ALICE));

    let mut resale = offer(&purchase.service, receipt, ALICE, BOB);
    let before = resale.clone();
    assert_eq!(resell_service(&mut resale, 80), Err(ErrorCode::SoulboundNFTCannotBeResold));
    assert_eq!(resale, before);
    assert_eq!(resale.service.data.price, 50);
    assert_eq!(resale.nft.data.owner, key(ALICE));
}

#[test]
fn soulbound_receipt_cannot_be_resold_by_anyone() {
    let receipt = Account {
        key: key(30),
        data: NFT { owner: key(ALICE), service: key(SERVICE), is_soulbound: true },
    };
    let service = listing(50, true);
    for seller in [ALICE, BOB, CAROL, VENDOR] {
        for seller_signed in [true, false] {
            for held in [0u64, 1, 2] {
                let mut resale = offer(&service, receipt, seller, CAROL);
                resale.seller.is_signer = seller_signed;
                resale.buyer.is_signer = seller_signed;
                resale.seller_nft_token_account.amount = held;
                let before = resale.clone();
                assert_eq!(
                    resell_service(&mut resale, 1),
                    Err(ErrorCode::SoulboundNFTCannotBeResold)
                );
                assert_eq!(resale, before);
            }
        }
    }
}

#[test]
fn resale_moves_ownership_and_sets_price() {
    let service = listing(100, false);
    let mut purchase = buy(&service, ALICE, 30, 5);
    purchase_service(&mut purchase).unwrap();
    let receipt = minted(&purchase);

    let mut resale = offer(&purchase.service, receipt, ALICE, BOB);
    let before = resale.clone();
    let handover = resell_service(&mut resale, 150).unwrap();
    assert_eq!(
        handover,
        Transfer {
            from: wallet(ALICE, 0).key,
            to: wallet(BOB, 0).key,
            authority: key(ALICE),
            amount: 1
        }
    );
    assert_eq!(resale.service.data.price, 150);
    assert_eq!(resale.nft.data.owner, key(BOB));
    assert_eq!(resale.nft.data.service, key(SERVICE));
    assert!(!resale.nft.data.is_soulbound);
    let mut expected = before;
    expected.service.data.price = 150;
    expected.nft.data.owner = key(BOB);
    assert_eq!(resale, expected);

    // The first buyer has passed the receipt on and can no longer sell it.
    let mut again = offer(&resale.service, resale.nft, ALICE, CAROL);
    let untouched = again.clone();
    assert_eq!(resell_service(&mut again, 200), Err(ErrorCode::NotNFTOwner));
    assert_eq!(again, untouched);
    assert_eq!(again.service.data.price, 150);
    assert_eq!(again.nft.data.owner, key(BOB));
}

#[test]
fn resale_by_someone_else_is_refused_and_changes_nothing() {
    let service = listing(100, false);
    let receipt = Account {
        key: key(30),
        data: NFT { owner: key(ALICE), service: key(SERVICE), is_soulbound: false },
    };
    for signed in [true, false] {
        let mut resale = offer(&service, receipt, BOB, CAROL);
        resale.seller.is_signer = signed;
        let before = resale.clone();
        assert_eq!(resell_service(&mut resale, 120), Err(ErrorCode::NotNFTOwner));
        assert_eq!(resale, before);
        assert_eq!(resale.service.data.price, 100);
        assert_eq!(resale.nft.data.owner, key(ALICE));
    }
}

#[test]
fn resale_owner_is_compared_byte_by_byte() {
    let service = listing(100, false);
    let mut owner = key(ALICE);
    owner.bytes[31] = 77;
    let receipt = Account {
        key: key(30),
        data: NFT { owner, service: key(SERVICE), is_soulbound: false },
    };
    let mut resale = offer(&service, receipt, ALICE, BOB);
    assert_eq!(resell_service(&mut resale, 120), Err(ErrorCode::NotNFTOwner));
    resale.seller.key.bytes[31] = 77;
    assert!(resell_service(&mut resale, 120).is_ok());
}

#[test]
fn resale_without_signatures_is_refused() {
    let service = listing(100, false);
    let receipt = Account {
        key: key(30),
        data: NFT { owner: key(ALICE), service: key(SERVICE), is_soulbound: false },
    };
    for (seller_signed, buyer_signed) in [(false, true), (true, false), (false, false)] {
        let mut resale = offer(&service, receipt, ALICE, BOB);
        resale.seller.is_signer = seller_signed;
        resale.buyer.is_signer = buyer_signed;
        let before = resale.clone();
        assert_eq!(resell_service(&mut resale, 120), Err(ErrorCode::Unauthorized));
        assert_eq!(resale, before);
    }
}

#[test]
fn resale_without_the_receipt_token_is_refused() {
    let service = listing(100, false);
    let receipt = Account {
        key: key(30),
        data: NFT { owner: key(ALICE), service: key(SERVICE), is_soulbound: false },
    };
    let mut resale = offer(&service, receipt, ALICE, BOB);
    resale.seller_nft_token_account.amount = 0;
    let before = resale.clone();
    assert_eq!(resell_service(&mut resale, 120), Err(ErrorCode::InsufficientFunds));
    assert_eq!(resale, before);
}

#[test]
fn resale_errors_come_in_a_fixed_order() {
    let service = listing(100, false);
    let receipt = Account {
        key: key(30),
        data: NFT { owner: key(ALICE), service: key(SERVICE), is_soulbound: true },
    };
    let mut resale = offer(&service, receipt, BOB, CAROL);
    resale.seller.is_signer = false;
    resale.seller_nft_token_account.amount = 0;
    assert_eq!(resell_service(&mut resale, 1), Err(ErrorCode::SoulboundNFTCannotBeResold));
    resale.nft.data.is_soulbound = false;
    assert_eq!(resell_service(&mut resale, 1), Err(ErrorCode::NotNFTOwner));
    resale.nft.data.owner = key(BOB);
    assert_eq!(resell_service(&mut resale, 1), Err(ErrorCode::Unauthorized));
    resale.seller.is_signer = true;
    assert_eq!(resell_service(&mut resale, 1), Err(ErrorCode::InsufficientFunds));
    resale.seller_nft_token_account.amount = 1;
    assert!(resell_service(&mut resale, 1).is_ok());
    assert_eq!(resale.service.data.price, 1);
}

#[test]
fn two_purchases_mint_two_independent_receipts() {
    let service = listing(100, false);
    let mut first = buy(&service, ALICE, 30, 5);
    purchase_service(&mut first).unwrap();
    let mut second = buy(&first.service, BOB, 31, 5);
    purchase_service(&mut second).unwrap();

    let first_receipt = minted(&first);
    let second_receipt = minted(&second);
    assert_ne!(first_receipt, second_receipt);
    assert_ne!(first_receipt.key, second_receipt.key);
    assert_ne!(first_receipt.data, second_receipt.data);
    assert_eq!(first_receipt.data.owner, key(ALICE));
    assert_eq!(second_receipt.data.owner, key(BOB));
    assert_eq!(first_receipt.data.service, second_receipt.data.service);

    let mut resale_of_first = offer(&second.service, first_receipt, ALICE, CAROL);
    resell_service(&mut resale_of_first, 150).unwrap();
    assert_eq!(resale_of_first.nft.data.owner, key(CAROL));

    // The second receipt is as it was minted, and its owner can sell it
    // under the listing as the first resale left it.
    assert_eq!(second_receipt.data.owner, key(BOB));
    let mut resale_of_second = offer(&resale_of_first.service, second_receipt, BOB, CAROL);
    resell_service(&mut resale_of_second, 175).unwrap();
    assert_eq!(resale_of_second.nft.data.owner, key(CAROL));
    assert_eq!(resale_of_second.service.data.price, 175);
    assert_eq!(resale_of_first.nft.data.owner, key(CAROL));
}

#[test]
fn second_purchase_into_the_same_place_is_refused() {
    let service = listing(100, false);
    let mut first = buy(&service, ALICE, 30, 5);
    purchase_service(&mut first).unwrap();
    let mut second = buy(&first.service, BOB, 30, 5);
    second.nft = first.nft;
    let before = second.clone();
    assert_eq!(purchase_service(&mut second), Err(ErrorCode::AlreadyExists));
    assert_eq!(second, before);
    assert_eq!(second.nft.data.unwrap().owner, key(ALICE));
}

#[test]
fn receipt_can_be_resold_again_and_again() {
    let mut service = listing(100, false);
    let mut receipt = Account {
        key: key(30),
        data: NFT { owner: key(ALICE), service: key(SERVICE), is_soulbound: false },
    };
    let route: [(u8, u8, u64); 4] =
        [(ALICE, BOB, 110), (BOB, CAROL, 90), (CAROL, ALICE, u64::MAX), (ALICE, ALICE, 1)];
    for (seller, buyer, price) in route {
        let mut resale = offer(&service, receipt, seller, buyer);
        resell_service(&mut resale, price).unwrap();
        assert_eq!(resale.nft.data.owner, key(buyer));
        assert_eq!(resale.service.data.price, price);
        assert!(!resale.nft.data.is_soulbound);
        assert!(!resale.service.data.is_soulbound);
        service = resale.service;
        receipt = resale.nft;
    }
    assert_eq!(receipt.data.owner, key(ALICE));
    assert_eq!(service.data.price, 1);
}
