pub mod plaid;
